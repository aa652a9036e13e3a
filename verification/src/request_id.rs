//! Request identifiers: the random UUID that ties the error body a client
//! receives to the log line the server keeps.

use vstd::prelude::*;

verus! {

/// `c` is a hexadecimal digit in lower case.
pub open spec fn is_lower_hex(c: char) -> bool {
    ('0' <= c && c <= '9') || ('a' <= c && c <= 'f')
}

/// A hyphenated UUID has its hyphens at these four places.
pub open spec fn is_hyphen_position(k: int) -> bool {
    k == 8 || k == 13 || k == 18 || k == 23
}

/// `s` is a random (version 4) UUID in its usual written form: 36
/// characters, lower-case hexadecimal digits in groups of 8, 4, 4, 4 and 12
/// with hyphens between them, a `4` at the head of the third group and one
/// of `8`, `9`, `a`, `b` at the head of the fourth.
pub open spec fn is_random_uuid(s: Seq<char>) -> bool {
    &&& s.len() == 36
    &&& forall|k: int|
        0 <= k < 36 ==> if is_hyphen_position(k) {
            #[trigger] s[k] == '-'
        } else {
            is_lower_hex(s[k])
        }
    &&& s[14] == '4'
    &&& (s[19] == '8' || s[19] == '9' || s[19] == 'a' || s[19] == 'b')
}

/// A fresh request identifier.
///
/// Trusted: the text comes from `uuid::Uuid::new_v4`, written out by the
/// `Display` of `uuid::Uuid`. What is claimed of it is its form and no more.
/// `new_v4` sets the version and variant bits of 128 random bits, and
/// `Display` writes the 16 bytes as lower-case hexadecimal digits with the
/// four hyphens. Which identifier comes out is left open, so two calls may
/// differ. `new_v4` panics if the operating system cannot supply random bytes.
#[verifier::external_body]
pub(crate) fn new_request_uuid() -> (id: String)
    ensures
        is_random_uuid(id@),
{
    uuid::Uuid::new_v4().to_string()
}

} // verus!
