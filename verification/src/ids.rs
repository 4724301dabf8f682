//! Fresh record identifiers.

use vstd::prelude::*;

verus! {

/// Whether `c` is a lowercase hexadecimal digit.
pub open spec fn is_lower_hex(c: char) -> bool {
    ('0' <= c && c <= '9') || ('a' <= c && c <= 'f')
}

/// Whether `s` is the hyphenated lowercase text of a version 7 UUID: 36
/// characters, hyphens at 8, 13, 18 and 23, lowercase hex digits elsewhere,
/// the version digit `7` at 14 and an RFC 4122 variant digit at 19.
pub open spec fn is_uuid_v7_text(s: Seq<char>) -> bool {
    &&& s.len() == 36
    &&& forall|i: int|
        0 <= i < 36 ==> if i == 8 || i == 13 || i == 18 || i == 23 {
            #[trigger] s[i] == '-'
        } else {
            is_lower_hex(s[i])
        }
    &&& s[14] == '7'
    &&& (s[19] == '8' || s[19] == '9' || s[19] == 'a' || s[19] == 'b')
}

/// A fresh identifier: a time-ordered UUID (uuid's `Uuid::now_v7`) in its
/// hyphenated lowercase text form. The version and variant bits are set by
/// uuid; the other digits depend on the clock and on chance, so no more is
/// stated of them.
#[verifier::external_body]
pub fn new_id() -> (id: String)
    ensures
        is_uuid_v7_text(id@),
{
    uuid::Uuid::now_v7().to_string()
}

} // verus!
