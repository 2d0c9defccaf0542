//! Where the server listens.

use crate::text::concat2;
use vstd::prelude::*;

verus! {

/// The port where none is configured, as the setting would give it.
pub const DEFAULT_API_PORT: &'static str = ":8002";

/// How many characters at the start of `text` are colons.
pub open spec fn leading_colons(text: Seq<char>) -> nat
    decreases text.len(),
{
    if text.len() > 0 && text[0] == ':' {
        1 + leading_colons(text.skip(1))
    } else {
        0
    }
}

/// The address that the server listens on: every interface, and the port
/// of the setting without the colons that lead it.
pub open spec fn listen_address_of(setting: Seq<char>) -> Seq<char> {
    "0.0.0.0:"@ + setting.skip(leading_colons(setting) as int)
}

/// The first `count` characters of `text` are colons, and they are all the
/// colons that lead it where the next character is none.
proof fn lemma_leading_colons(text: Seq<char>, count: int)
    requires
        0 <= count <= text.len(),
        forall|i: int| 0 <= i < count ==> text[i] == ':',
        count < text.len() ==> text[count] != ':',
    ensures
        leading_colons(text) == count,
    decreases count,
{
    if count > 0 {
        lemma_leading_colons(text.skip(1), count - 1);
    }
}

/// The address that the server listens on, for the port as it is
/// configured: `:8002` and `8002` both give `0.0.0.0:8002`.
pub fn listen_address(api_port: Option<&str>) -> (address: String)
    ensures
        address@ == listen_address_of(
            match api_port {
                Some(setting) => setting@,
                None => DEFAULT_API_PORT@,
            },
        ),
{
    let setting = match api_port {
        Some(setting) => setting,
        None => DEFAULT_API_PORT,
    };
    let length = setting.unicode_len();
    let mut colons: usize = 0;
    while colons < length && setting.get_char(colons) == ':'
        invariant
            length == setting@.len(),
            colons <= length,
            forall|i: int| 0 <= i < colons ==> setting@[i] == ':',
        decreases length - colons,
    {
        colons = colons + 1;
    }
    proof {
        lemma_leading_colons(setting@, colons as int);
    }
    let port = setting.substring_char(colons, length);
    assert(port@ =~= setting@.skip(colons as int));
    concat2("0.0.0.0:", port)
}

} // verus!
