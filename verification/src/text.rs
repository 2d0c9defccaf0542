//! Text: what the standard library's string functions return, stated over
//! sequences of characters.

use vstd::prelude::*;
use vstd::string::StringSliceAdditionalSpecFns;

verus! {

/// `core::num::ParseIntError`: handed back as it comes.
#[verifier::external_type_specification]
#[verifier::external_body]
pub struct ExParseIntError(core::num::ParseIntError);

/// Whether `c` is one of the ten decimal digits.
pub open spec fn is_digit(c: char) -> bool {
    '0' <= c <= '9'
}

/// The digit that stands for `d`, for `d` from 0 to 9.
pub open spec fn digit_char(d: int) -> char {
    (('0' as u8) + d) as u8 as char
}

/// The decimal digits of a natural number, without leading zeros.
pub open spec fn decimal_digits(n: nat) -> Seq<char>
    decreases n,
{
    if n < 10 {
        seq![digit_char(n as int)]
    } else {
        decimal_digits(n / 10).push(digit_char((n % 10) as int))
    }
}

/// The decimal text of an integer: a minus sign where it is negative, then
/// its digits.
pub open spec fn decimal_text(n: int) -> Seq<char> {
    if n < 0 {
        seq!['-'] + decimal_digits((-n) as nat)
    } else {
        decimal_digits(n as nat)
    }
}

/// Whether every character of `text` is a decimal digit.
pub open spec fn all_digits(text: Seq<char>) -> bool {
    forall|i: int| 0 <= i < text.len() ==> is_digit(#[trigger] text[i])
}

/// The number that a run of decimal digits stands for.
pub open spec fn digits_value(text: Seq<char>) -> nat
    decreases text.len(),
{
    if text.len() == 0 {
        0
    } else {
        (digits_value(text.drop_last()) * 10 + (text.last() as nat - '0' as nat)) as nat
    }
}

/// The integer that `text` stands for: an optional `+` or `-`, then one or
/// more decimal digits and nothing else.
pub open spec fn parsed_int(text: Seq<char>) -> Option<int> {
    if text.len() > 0 && (text[0] == '-' || text[0] == '+') {
        if text.len() > 1 && all_digits(text.skip(1)) {
            if text[0] == '-' {
                Some(-(digits_value(text.skip(1)) as int))
            } else {
                Some(digits_value(text.skip(1)) as int)
            }
        } else {
            None
        }
    } else if text.len() > 0 && all_digits(text) {
        Some(digits_value(text) as int)
    } else {
        None
    }
}

/// The Unicode property `White_Space`.
pub open spec fn is_whitespace(c: char) -> bool {
    let code = c as u32;
    (0x09 <= code <= 0x0D) || code == 0x20 || code == 0x85 || code == 0xA0 || code == 0x1680 || (
    0x2000 <= code <= 0x200A) || code == 0x2028 || code == 0x2029 || code == 0x202F || code
        == 0x205F || code == 0x3000
}

/// How many characters at the start of `text` are whitespace.
pub open spec fn leading_whitespace(text: Seq<char>) -> nat
    decreases text.len(),
{
    if text.len() > 0 && is_whitespace(text[0]) {
        1 + leading_whitespace(text.skip(1))
    } else {
        0
    }
}

/// How many characters at the end of `text` are whitespace.
pub open spec fn trailing_whitespace(text: Seq<char>) -> nat
    decreases text.len(),
{
    if text.len() > 0 && is_whitespace(text.last()) {
        1 + trailing_whitespace(text.drop_last())
    } else {
        0
    }
}

/// `text` without the whitespace at its start and at its end.
pub open spec fn trimmed(text: Seq<char>) -> Seq<char> {
    let rest = text.skip(leading_whitespace(text) as int);
    rest.take(rest.len() - trailing_whitespace(rest))
}

/// Whether `text` holds nothing but whitespace.
pub open spec fn all_whitespace(text: Seq<char>) -> bool {
    forall|i: int| 0 <= i < text.len() ==> is_whitespace(#[trigger] text[i])
}

/// The whitespace that leads a text ends at its first character that is
/// none.
pub proof fn lemma_leading_whitespace(text: Seq<char>)
    ensures
        leading_whitespace(text) <= text.len(),
        all_whitespace(text.take(leading_whitespace(text) as int)),
        leading_whitespace(text) < text.len() ==> !is_whitespace(
            text[leading_whitespace(text) as int],
        ),
    decreases text.len(),
{
    if text.len() > 0 && is_whitespace(text[0]) {
        let rest = text.skip(1);
        lemma_leading_whitespace(rest);
        let count = leading_whitespace(rest) as int;
        assert forall|i: int| 0 <= i < count + 1 implies is_whitespace(
            #[trigger] text.take(count + 1)[i],
        ) by {
            if i > 0 {
                assert(text.take(count + 1)[i] == rest.take(count)[i - 1]);
            }
        }
    }
}

/// The whitespace that trails a text does not reach past a character that
/// is none.
pub proof fn lemma_trailing_whitespace(text: Seq<char>, at: int)
    requires
        0 <= at < text.len(),
        !is_whitespace(text[at]),
    ensures
        trailing_whitespace(text) < text.len() - at,
    decreases text.len(),
{
    if is_whitespace(text.last()) {
        lemma_trailing_whitespace(text.drop_last(), at);
    }
}

/// Nothing is left of a text without the whitespace around it exactly
/// where the text holds nothing but whitespace.
pub proof fn lemma_trimmed_empty(text: Seq<char>)
    ensures
        trimmed(text).len() == 0 <==> all_whitespace(text),
{
    lemma_leading_whitespace(text);
    let lead = leading_whitespace(text) as int;
    let rest = text.skip(lead);
    if lead < text.len() {
        lemma_trailing_whitespace(rest, 0);
        assert(!is_whitespace(text[lead]));
    } else {
        assert(text.take(lead) =~= text);
    }
}

/// What is left of `text` behind `prefix`, where `text` starts with it.
pub open spec fn without_prefix(text: Seq<char>, prefix: Seq<char>) -> Option<Seq<char>> {
    if prefix.is_prefix_of(text) {
        Some(text.skip(prefix.len() as int))
    } else {
        None
    }
}

/// The lower-case form of a text, as `str::to_lowercase` gives it.
pub uninterp spec fn lowercased(text: Seq<char>) -> Seq<char>;

/// Whether two texts hold the same characters.
///
/// The texts are compared byte by byte: two texts have the same bytes
/// exactly where they have the same characters.
pub fn same_text(left: &str, right: &str) -> (same: bool)
    ensures
        same == (left@ == right@),
{
    let left_bytes = left.as_bytes();
    let right_bytes = right.as_bytes();
    proof {
        vstd::utf8::encode_utf8_decode_utf8(left@);
        vstd::utf8::encode_utf8_decode_utf8(right@);
    }
    if left_bytes.len() != right_bytes.len() {
        return false;
    }
    let mut at: usize = 0;
    while at < left_bytes.len()
        invariant
            left_bytes@.len() == right_bytes@.len(),
            at <= left_bytes@.len(),
            forall|i: int| 0 <= i < at ==> left_bytes@[i] == right_bytes@[i],
            left_bytes@ != right_bytes@ ==> left@ != right@,
        decreases left_bytes@.len() - at,
    {
        if left_bytes[at] != right_bytes[at] {
            return false;
        }
        at = at + 1;
    }
    assert(left_bytes@ =~= right_bytes@);
    true
}

/// `str::strip_prefix`: the rest behind `prefix`, where the text starts
/// with it.
#[verifier::external_body]
pub(crate) fn strip_prefix<'a>(text: &'a str, prefix: &str) -> (rest: Option<&'a str>)
    ensures
        match rest {
            Some(tail) => without_prefix(text@, prefix@) == Some(tail@),
            None => without_prefix(text@, prefix@) is None,
        },
{
    text.strip_prefix(prefix)
}

/// `str::trim`: the text without leading and trailing whitespace.
#[verifier::external_body]
pub(crate) fn trim(text: &str) -> (inner: &str)
    ensures
        inner@ == trimmed(text@),
{
    text.trim()
}

/// `str::to_lowercase`.
#[verifier::external_body]
pub(crate) fn to_lowercase(text: &str) -> (lower: String)
    ensures
        lower@ == lowercased(text@),
{
    text.to_lowercase()
}

/// `i32::from_str`: the integer that the text stands for, where it stands
/// for one that an `i32` holds; an error otherwise.
#[verifier::external_body]
pub(crate) fn parse_i32(text: &str) -> (parsed: Result<i32, core::num::ParseIntError>)
    ensures
        match parsed {
            Ok(value) => parsed_int(text@) == Some(value as int),
            Err(_) => parsed_int(text@) is None || parsed_int(text@)->0 < i32::MIN || parsed_int(
                text@,
            )->0 > i32::MAX,
        },
{
    text.parse::<i32>()
}

/// `i64::from_str`: the integer that the text stands for, where it stands
/// for one that an `i64` holds; `None` otherwise.
#[verifier::external_body]
pub(crate) fn parse_i64(text: &str) -> (parsed: Option<i64>)
    ensures
        match parsed {
            Some(value) => parsed_int(text@) == Some(value as int),
            None => parsed_int(text@) is None || parsed_int(text@)->0 < i64::MIN || parsed_int(
                text@,
            )->0 > i64::MAX,
        },
{
    text.parse::<i64>().ok()
}

/// The number that `text` stands for where no sign but `+` may lead: an
/// optional `+`, then one or more decimal digits and nothing else.
pub open spec fn parsed_unsigned(text: Seq<char>) -> Option<int> {
    if text.len() > 0 && text[0] == '-' {
        None
    } else {
        parsed_int(text)
    }
}

/// `u16::from_str`: the number that the text stands for, where it stands
/// for one that a `u16` holds; `None` otherwise.
#[verifier::external_body]
pub(crate) fn parse_u16(text: &str) -> (parsed: Option<u16>)
    ensures
        match parsed {
            Some(value) => parsed_unsigned(text@) == Some(value as int),
            None => parsed_unsigned(text@) is None || parsed_unsigned(text@)->0 > u16::MAX,
        },
{
    text.parse::<u16>().ok()
}

/// `i64::to_string`: the decimal text of an integer.
#[verifier::external_body]
pub(crate) fn int_to_text(value: i64) -> (text: String)
    ensures
        text@ == decimal_text(value as int),
{
    value.to_string()
}

/// `String::push`: one character more at the end.
#[verifier::external_body]
pub(crate) fn push_char(text: &mut String, c: char)
    ensures
        final(text)@ == old(text)@.push(c),
{
    text.push(c);
}

/// The texts one after another.
pub fn concat2(first: &str, second: &str) -> (joined: String)
    ensures
        joined@ == first@ + second@,
{
    let mut joined = String::from_str(first);
    joined.append(second);
    joined
}

} // verus!
