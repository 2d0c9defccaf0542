//! Orders: the code of a new order and the search for orders.

use crate::response::PaginationRequest;
use crate::structs::OrderSearchRequest;
use crate::text::decimal_text;
use crate::text::int_to_text;
use vstd::prelude::*;

verus! {

/// The code of an order: `ORD-`, the shop's number, a hyphen and the time
/// in seconds.
pub fn order_code(shop_id: i32, timestamp: i64) -> (code: String)
    ensures
        code@ == "ORD-"@ + decimal_text(shop_id as int) + "-"@ + decimal_text(timestamp as int),
{
    let mut code = String::from_str("ORD-");
    let shop = int_to_text(shop_id as i64);
    code.append(shop.as_str());
    code.append("-");
    let time = int_to_text(timestamp);
    code.append(time.as_str());
    code
}

/// The query that searches the orders of a shop, with a filter for each of
/// customer and status that is asked for. Every value is a parameter: no
/// value stands in the text.
pub open spec fn search_query_text(by_customer: bool, by_status: bool) -> Seq<char> {
    "SELECT * FROM orders WHERE shop_id = ?"@ + (if by_customer {
        " AND customer_id = ?"@
    } else {
        Seq::empty()
    }) + (if by_status {
        " AND order_status = ?"@
    } else {
        Seq::empty()
    }) + " ORDER BY created_at DESC LIMIT ? OFFSET ?"@
}

/// The parameters of the search, in the order of the question marks: the
/// shop, the customer and the status where they are asked for, the limit
/// and the offset.
pub open spec fn search_query_values(
    shop_id: i32,
    customer_id: Option<i32>,
    status: Option<i8>,
    limit: i64,
    offset: i64,
) -> Seq<int> {
    seq![shop_id as int] + (match customer_id {
        Some(customer) => seq![customer as int],
        None => Seq::empty(),
    }) + (match status {
        Some(state) => seq![state as int],
        None => Seq::empty(),
    }) + seq![limit as int, offset as int]
}

/// A query and its parameters.
#[derive(Debug, Clone)]
pub struct SearchQuery {
    pub text: String,
    pub values: Vec<i64>,
}

/// The numbers as mathematical integers.
pub open spec fn values_of(values: Seq<i64>) -> Seq<int> {
    Seq::new(values.len(), |i: int| values[i] as int)
}

/// The search for the orders of a shop: the newest first, `limit` of them
/// after the first `offset`. The text has one question mark for each
/// parameter.
pub fn search_orders_query(
    shop_id: i32,
    customer_id: Option<i32>,
    status: Option<i8>,
    limit: i64,
    offset: i64,
) -> (query: SearchQuery)
    ensures
        query.text@ == search_query_text(customer_id is Some, status is Some),
        values_of(query.values@) == search_query_values(
            shop_id,
            customer_id,
            status,
            limit,
            offset,
        ),
{
    let mut text = String::from_str("SELECT * FROM orders WHERE shop_id = ?");
    let mut values: Vec<i64> = Vec::new();
    values.push(shop_id as i64);
    assert(values_of(values@) =~= seq![shop_id as int]);
    if let Some(customer) = customer_id {
        text.append(" AND customer_id = ?");
        values.push(customer as i64);
        assert(values_of(values@) =~= seq![shop_id as int] + seq![customer as int]);
    } else {
        assert(text@ =~= "SELECT * FROM orders WHERE shop_id = ?"@ + Seq::<char>::empty());
        assert(values_of(values@) =~= seq![shop_id as int] + Seq::<int>::empty());
    }
    let ghost with_customer = values_of(values@);
    let ghost text_with_customer = text@;
    if let Some(state) = status {
        text.append(" AND order_status = ?");
        values.push(state as i64);
        assert(values_of(values@) =~= with_customer + seq![state as int]);
    } else {
        assert(text@ =~= text_with_customer + Seq::<char>::empty());
        assert(values_of(values@) =~= with_customer + Seq::<int>::empty());
    }
    let ghost with_status = values_of(values@);
    text.append(" ORDER BY created_at DESC LIMIT ? OFFSET ?");
    values.push(limit);
    values.push(offset);
    assert(values_of(values@) =~= with_status + seq![limit as int, offset as int]);
    SearchQuery { text, values }
}

impl OrderSearchRequest {
    /// The page that the search asks for.
    pub fn pagination(&self) -> (page: PaginationRequest)
        ensures
            page.page == self.page,
            page.limit == self.limit,
    {
        PaginationRequest { page: self.page, limit: self.limit }
    }
}

} // verus!
