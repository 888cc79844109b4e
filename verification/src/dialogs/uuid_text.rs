//! Identifiers for saved records, made from random bytes that the caller draws.

use vstd::prelude::*;

verus! {

/// Whether `c` is a lowercase hexadecimal digit.
pub open spec fn is_lower_hex(c: char) -> bool {
    ('0' <= c && c <= '9') || ('a' <= c && c <= 'f')
}

/// The hyphenated lowercase text form of a UUID: 36 characters, hyphens at positions
/// 8, 13, 18 and 23, lowercase hex digits elsewhere.
pub open spec fn is_uuid_text(s: Seq<char>) -> bool {
    &&& s.len() == 36
    &&& forall|i: int|
        0 <= i < 36 ==> if i == 8 || i == 13 || i == 18 || i == 23 {
            s[i] == '-'
        } else {
            is_lower_hex(#[trigger] s[i])
        }
}

/// The text form of a random (version 4, RFC 4122 variant) UUID: the version digit
/// `4` at position 14 and one of `8`, `9`, `a`, `b` at position 19.
pub open spec fn is_uuid_v4_text(s: Seq<char>) -> bool {
    &&& is_uuid_text(s)
    &&& s[14] == '4'
    &&& s[19] == '8' || s[19] == '9' || s[19] == 'a' || s[19] == 'b'
}

/// The text of the UUID that `uuid::Builder::from_random_bytes` makes of `bytes`.
pub uninterp spec fn uuid_v4_text_of(bytes: Seq<u8>) -> Seq<char>;

/// Calls `uuid::Builder::from_random_bytes(bytes).into_uuid()` and renders the UUID
/// with `to_string()`. The builder takes the bytes as they are and only sets the
/// version (random, 4) and RFC 4122 variant bits; `Uuid`'s `Display` writes the
/// hyphenated lowercase form. So the text is a function of the bytes (named
/// [`uuid_v4_text_of`]) with the shape of [`is_uuid_v4_text`]; which hex digits come
/// out for which bytes is left to that name. Neither call can fail or panic.
#[verifier::external_body]
pub(crate) fn uuid_v4_text_from_bytes(bytes: [u8; 16]) -> (s: String)
    ensures
        s@ == uuid_v4_text_of(bytes@),
        is_uuid_v4_text(s@),
{
    uuid::Builder::from_random_bytes(bytes).into_uuid().to_string()
}

} // verus!
