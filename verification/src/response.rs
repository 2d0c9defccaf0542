//! The envelope of every answer, and paging.

use crate::json::json_entries;
use crate::json::json_item;
use crate::json::json_object_new;
use crate::json::json_put_flag;
use crate::json::json_put_text;
use crate::json::json_put_value;
use crate::json::JsonItem;
use crate::json::JsonObject;
use vstd::prelude::*;

verus! {

/// The envelope of an answer: whether the call succeeded, and at most the
/// parts that belong to the outcome. A part that is `None` is left out of
/// the answer, not sent as null.
#[derive(Debug)]
pub struct ApiResponse<T> {
    pub status: bool,
    pub data: Option<T>,
    pub message: Option<String>,
    pub error: Option<String>,
}

impl<T> ApiResponse<T> {
    /// A success that carries `data` and nothing else.
    pub fn success(data: T) -> (response: Self)
        ensures
            response.status,
            response.data == Some(data),
            response.message is None,
            response.error is None,
    {
        ApiResponse { status: true, data: Some(data), message: None, error: None }
    }

    /// A success that carries `data` and a message.
    pub fn success_with_message(data: T, message: String) -> (response: Self)
        ensures
            response.status,
            response.data == Some(data),
            response.message == Some(message),
            response.error is None,
    {
        ApiResponse { status: true, data: Some(data), message: Some(message), error: None }
    }

    /// A failure that carries the error text and nothing else.
    pub fn error(error: String) -> (response: Self)
        ensures
            !response.status,
            response.data is None,
            response.message is None,
            response.error == Some(error),
    {
        ApiResponse { status: false, data: None, message: None, error: Some(error) }
    }
}

/// `entries`, and one entry more where there is something to put there.
pub open spec fn with_part(entries: Map<Seq<char>, JsonItem>, key: Seq<char>, part: Option<JsonItem>) -> Map<
    Seq<char>,
    JsonItem,
> {
    match part {
        Some(item) => entries.insert(key, item),
        None => entries,
    }
}

/// The entry that holds a text, where there is one.
pub open spec fn text_part(text: Option<String>) -> Option<JsonItem> {
    match text {
        Some(given) => Some(JsonItem::Text(given@)),
        None => None,
    }
}

/// The entry that holds a value, where there is one.
pub open spec fn value_part(value: Option<serde_json::Value>) -> Option<JsonItem> {
    match value {
        Some(given) => Some(json_item(given)),
        None => None,
    }
}

/// The JSON object of an envelope: `status` always, and each of `data`,
/// `message` and `error` exactly where the envelope holds it.
pub open spec fn envelope_entries(response: ApiResponse<serde_json::Value>) -> Map<
    Seq<char>,
    JsonItem,
> {
    with_part(
        with_part(
            with_part(
                Map::empty().insert("status"@, JsonItem::Flag(response.status)),
                "data"@,
                value_part(response.data),
            ),
            "message"@,
            text_part(response.message),
        ),
        "error"@,
        text_part(response.error),
    )
}

/// The four keys of an envelope differ in their lengths.
pub proof fn lemma_envelope_keys()
    ensures
        "status"@.len() == 6,
        "data"@.len() == 4,
        "message"@.len() == 7,
        "error"@.len() == 5,
{
    reveal_strlit("status");
    reveal_strlit("data");
    reveal_strlit("message");
    reveal_strlit("error");
}

impl ApiResponse<serde_json::Value> {
    /// The envelope as the JSON object that is sent.
    ///
    /// A part that the envelope does not hold has no entry: it is left
    /// out, not sent as null. Nothing but the four entries is sent.
    pub fn to_json(self) -> (object: JsonObject)
        ensures
            json_entries(object) == envelope_entries(self),
            json_entries(object).dom().contains("status"@),
            json_entries(object).dom().contains("data"@) <==> self.data is Some,
            json_entries(object).dom().contains("message"@) <==> self.message is Some,
            json_entries(object).dom().contains("error"@) <==> self.error is Some,
            forall|key: Seq<char>| #[trigger]
                json_entries(object).dom().contains(key) ==> key == "status"@ || key == "data"@
                    || key == "message"@ || key == "error"@,
    {
        proof {
            lemma_envelope_keys();
        }
        let mut object = json_object_new();
        json_put_flag(&mut object, "status", self.status);
        if let Some(data) = self.data {
            json_put_value(&mut object, "data", data);
        }
        if let Some(message) = self.message {
            json_put_text(&mut object, "message", message.as_str());
        }
        if let Some(error) = self.error {
            json_put_text(&mut object, "error", error.as_str());
        }
        object
    }
}

/// The page that a listing asks for. A part that is not given counts as
/// page 1 and 20 items.
#[derive(Debug)]
pub struct PaginationRequest {
    pub page: Option<i64>,
    pub limit: Option<i64>,
}

/// The page that is meant where none is given.
pub const DEFAULT_PAGE: i64 = 1;

/// The number of items on a page where none is given.
pub const DEFAULT_LIMIT: i64 = 20;

impl Default for PaginationRequest {
    /// The first page with 20 items.
    fn default() -> (request: Self)
        ensures
            request.page == Some(DEFAULT_PAGE),
            request.limit == Some(DEFAULT_LIMIT),
    {
        PaginationRequest { page: Some(DEFAULT_PAGE), limit: Some(DEFAULT_LIMIT) }
    }
}

impl PaginationRequest {
    /// The page that is meant.
    pub open spec fn spec_page(&self) -> int {
        match self.page {
            Some(page) => page as int,
            None => DEFAULT_PAGE as int,
        }
    }

    /// The number of items on a page.
    pub open spec fn spec_limit(&self) -> int {
        match self.limit {
            Some(limit) => limit as int,
            None => DEFAULT_LIMIT as int,
        }
    }

    /// Whether the offset of the page is a number that an `i64` holds.
    pub open spec fn offset_fits(&self) -> bool {
        i64::MIN <= (self.spec_page() - 1) * self.spec_limit() <= i64::MAX
    }

    /// `(page - 1) * limit`, in a type that holds it whatever the two are.
    fn wide_offset(&self) -> (skipped: i128)
        ensures
            skipped == (self.spec_page() - 1) * self.spec_limit(),
    {
        let page: i128 = match self.page {
            Some(page) => page as i128,
            None => DEFAULT_PAGE as i128,
        };
        let limit: i128 = match self.limit {
            Some(limit) => limit as i128,
            None => DEFAULT_LIMIT as i128,
        };
        assert(-0x4000_0000_0000_0000_8000_0000_0000_0000 <= (page - 1) * limit
            <= 0x4000_0000_0000_0000_8000_0000_0000_0000) by (nonlinear_arith)
            requires
                -0x8000_0000_0000_0001 <= page - 1 <= 0x8000_0000_0000_0001,
                -0x8000_0000_0000_0000 <= limit <= 0x8000_0000_0000_0000,
        ;
        (page - 1) * limit
    }

    /// How many items stand before the page: `(page - 1) * limit`.
    pub fn offset(&self) -> (skipped: i64)
        requires
            self.offset_fits(),
        ensures
            skipped == (self.spec_page() - 1) * self.spec_limit(),
    {
        self.wide_offset() as i64
    }

    /// The offset of the page, or `None` where no `i64` holds it.
    pub fn checked_offset(&self) -> (skipped: Option<i64>)
        ensures
            match skipped {
                Some(value) => self.offset_fits() && value == (self.spec_page() - 1)
                    * self.spec_limit(),
                None => !self.offset_fits(),
            },
    {
        let wide = self.wide_offset();
        if i64::MIN as i128 <= wide && wide <= i64::MAX as i128 {
            Some(wide as i64)
        } else {
            None
        }
    }

    /// The number of items on a page.
    pub fn limit(&self) -> (limit: i64)
        ensures
            limit == self.spec_limit(),
    {
        match self.limit {
            Some(limit) => limit,
            None => DEFAULT_LIMIT,
        }
    }
}

/// One page of a listing.
#[derive(Debug)]
pub struct PaginatedResponse<T> {
    pub data: Vec<T>,
    pub page: i64,
    pub limit: i64,
    pub total: i64,
    pub total_pages: i64,
}

/// `total / limit`, rounded up to a whole number.
pub open spec fn quotient_rounded_up(total: int, limit: int) -> int
    recommends
        limit != 0,
{
    if limit > 0 {
        (total + limit - 1) / limit
    } else {
        (-total + (-limit) - 1) / (-limit)
    }
}

/// The number of pages that `total` items fill with `limit` items each.
///
/// It is `total / limit` rounded up, kept within `i64`. No page size divides
/// where `limit` is 0: the count is then the largest `i64` for a positive
/// total, the smallest for a negative one, and 0 for none.
pub open spec fn page_count(total: int, limit: int) -> int {
    if limit == 0 {
        if total > 0 {
            i64::MAX as int
        } else if total < 0 {
            i64::MIN as int
        } else {
            0
        }
    } else if quotient_rounded_up(total, limit) > i64::MAX {
        i64::MAX as int
    } else {
        quotient_rounded_up(total, limit)
    }
}

impl<T> PaginatedResponse<T> {
    /// The page `page` of `total` items, `limit` to a page, with the number
    /// of pages worked out.
    pub fn new(data: Vec<T>, page: i64, limit: i64, total: i64) -> (response: Self)
        ensures
            response.data == data,
            response.page == page,
            response.limit == limit,
            response.total == total,
            response.total_pages == page_count(total as int, limit as int),
    {
        let total_pages: i64 = if limit == 0 {
            if total > 0 {
                i64::MAX
            } else if total < 0 {
                i64::MIN
            } else {
                0
            }
        } else {
            let (above, below): (i128, i128) = if limit > 0 {
                (total as i128, limit as i128)
            } else {
                (-(total as i128), -(limit as i128))
            };
            // `below` is positive: rounding up is flooring after adding `below - 1`
            let shifted: i128 = above + below - 1;
            let floor: i128 = if shifted >= 0 {
                shifted / below
            } else {
                -((-shifted + below - 1) / below)
            };
            assert(floor == (shifted as int) / (below as int)) by {
                lemma_floor_division(shifted as int, below as int);
            }
            if floor > i64::MAX as i128 {
                i64::MAX
            } else {
                assert(floor >= i64::MIN) by {
                    lemma_floor_bounds(shifted as int, below as int);
                }
                floor as i64
            }
        };
        PaginatedResponse { data, page, limit, total, total_pages }
    }
}

/// For a negative dividend, rounding the quotient down is rounding the
/// quotient of the negated dividend up.
proof fn lemma_floor_division(a: int, b: int)
    requires
        b > 0,
    ensures
        a < 0 ==> a / b == -((-a + b - 1) / b),
{
    if a < 0 {
        let q = a / b;
        let r = a % b;
        vstd::arithmetic::div_mod::lemma_fundamental_div_mod(a, b);
        vstd::arithmetic::div_mod::lemma_mod_bound(a, b);
        // a == b * q + r with 0 <= r < b, so -a + b - 1 == (-q) * b + (b - 1 - r)
        assert(-a + b - 1 == (-q) * b + (b - 1 - r)) by (nonlinear_arith)
            requires
                a == b * q + r,
        ;
        vstd::arithmetic::div_mod::lemma_fundamental_div_mod_converse(
            -a + b - 1,
            b,
            -q,
            b - 1 - r,
        );
    }
}

/// A quotient rounded down lies between the dividend and its negation.
proof fn lemma_floor_bounds(a: int, b: int)
    requires
        b > 0,
    ensures
        a >= 0 ==> 0 <= a / b <= a,
        a < 0 ==> a <= a / b <= 0,
{
    vstd::arithmetic::div_mod::lemma_fundamental_div_mod(a, b);
    vstd::arithmetic::div_mod::lemma_mod_bound(a, b);
    let q = a / b;
    let r = a % b;
    if a >= 0 {
        assert(0 <= q <= a) by (nonlinear_arith)
            requires
                a == b * q + r,
                0 <= r < b,
                b > 0,
                a >= 0,
        ;
    } else {
        assert(a <= q <= 0) by (nonlinear_arith)
            requires
                a == b * q + r,
                0 <= r < b,
                b > 0,
                a < 0,
        ;
    }
}

} // verus!
