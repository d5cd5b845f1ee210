//! What the coordinator draws from chance: fresh session ids and the pick
//! of a default room.

use vstd::prelude::*;

verus! {

/// A digit of lower-case hexadecimal notation.
pub open spec fn is_lower_hex(c: char) -> bool {
    ('0' <= c && c <= '9') || ('a' <= c && c <= 'f')
}

/// The shape of a hyphenated UUID: 36 characters, hyphens after the 8th,
/// 12th, 16th and 20th hexadecimal digit, lower-case digits elsewhere.
pub open spec fn is_hyphenated_uuid(s: Seq<char>) -> bool {
    &&& s.len() == 36
    &&& forall|i: int|
        0 <= i < 36 ==> if i == 8 || i == 13 || i == 18 || i == 23 {
            #[trigger] s[i] == '-'
        } else {
            is_lower_hex(#[trigger] s[i])
        }
}

/// The shape of a random UUID written with hyphens: the version digit is
/// 4 and the variant digit is one of 8, 9, a and b.
pub open spec fn is_random_uuid(s: Seq<char>) -> bool {
    &&& is_hyphenated_uuid(s)
    &&& s[14] == '4'
    &&& (s[19] == '8' || s[19] == '9' || s[19] == 'a' || s[19] == 'b')
}

/// A fresh random id: `uuid::Uuid::new_v4`, written out by the formatter
/// that `Uuid::as_hyphenated` gives.
///
/// Trusted: the result has the shape of a random UUID written with hyphens
/// in lower case. Nothing is claimed about which id comes out; two calls
/// may give any two ids. The call fails only if the operating system
/// cannot supply random bytes.
#[verifier::external_body]
pub(crate) fn mint_uid() -> (res: String)
    ensures
        is_random_uuid(res@),
{
    uuid::Uuid::new_v4().as_hyphenated().to_string()
}

/// A random byte: `rand::random::<u8>`.
///
/// Trusted, with nothing claimed about the byte.
#[verifier::external_body]
pub(crate) fn pick_byte() -> u8 {
    rand::random::<u8>()
}

} // verus!
