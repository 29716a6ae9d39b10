//! Reading request header values as text, for the session cookie and the
//! request id.

use vstd::prelude::*;
use crate::text::string_from_range;

verus! {

/// A byte that a header value read as text may hold: a tab or visible ASCII.
pub open spec fn is_header_text_byte(b: u8) -> bool {
    b == 9 || (32 <= b && b < 127)
}

/// A header value read as text, by the rule of `http::HeaderValue::to_str`:
/// text only when every byte is a tab or visible ASCII, each byte then being
/// one character. An absent header has no text.
pub fn header_text(value: Option<&[u8]>) -> (r: Option<String>)
    ensures
        r is Some <==> (value is Some && forall|i: int|
            0 <= i < value->0@.len() ==> is_header_text_byte(#[trigger] value->0@[i])),
        r matches Some(s) ==> s@ == value->0@.map_values(|b: u8| b as char),
{
    match value {
        None => None,
        Some(bytes) => {
            let mut chars: Vec<char> = Vec::new();
            let mut i: usize = 0;
            while i < bytes.len()
                invariant
                    value == Some(bytes),
                    i <= bytes@.len(),
                    chars@ == bytes@.take(i as int).map_values(|b: u8| b as char),
                    forall|j: int| 0 <= j < i ==> is_header_text_byte(#[trigger] bytes@[j]),
                decreases bytes@.len() - i,
            {
                let b: u8 = bytes[i];
                if !(b == 9 || (32 <= b && b < 127)) {
                    assert(!is_header_text_byte(value->0@[i as int]));
                    return None;
                }
                chars.push(b as char);
                assert(bytes@.take(i + 1) =~= bytes@.take(i as int).push(b));
                i = i + 1;
            }
            assert(bytes@.take(i as int) =~= bytes@);
            Some(string_from_range(&chars, 0, chars.len()))
        },
    }
}


/// Header text is exactly the tab and the visible ASCII bytes, 32 to 126.
pub proof fn law_header_text_bytes(b: u8)
    ensures
        is_header_text_byte(b) <==> (b == 9 || (32 <= b && b <= 126)),
{
}

} // verus!
