//! Identifiers that tie a request to its response and to the log.

use vstd::prelude::*;

verus! {

/// A lower-case hexadecimal digit.
pub open spec fn is_lower_hex(c: char) -> bool {
    ('0' as u32 <= c as u32 && c as u32 <= '9' as u32) || ('a' as u32 <= c as u32 && c as u32
        <= 'f' as u32)
}

/// The hyphenated form of a random UUID: 36 characters, hyphens at the
/// positions 8, 13, 18 and 23, lower-case hexadecimal digits elsewhere, and
/// the version digit `4`.
pub open spec fn is_request_id(s: Seq<char>) -> bool {
    &&& s.len() == 36
    &&& forall|i: int|
        0 <= i < 36 ==> if i == 8 || i == 13 || i == 18 || i == 23 {
            #[trigger] s[i] == '-'
        } else {
            is_lower_hex(s[i])
        }
    &&& s[14] == '4'
}

/// Calls `uuid::Uuid::new_v4` and renders the result with the crate's
/// `Display`. Trusted: the text has the hyphenated lower-case form of a
/// version 4 UUID; which one it is depends on the system's random source.
/// The outside function panics where that source fails.
#[verifier::external_body]
pub(crate) fn random_uuid_text() -> (id: String)
    ensures
        is_request_id(id@),
{
    uuid::Uuid::new_v4().to_string()
}

/// A fresh request identifier.
pub fn new_request_id() -> (id: String)
    ensures
        is_request_id(id@),
{
    random_uuid_text()
}

} // verus!
