//! Token identifiers: random 128-bit values in their canonical text form.

use uuid::Uuid;
use vstd::prelude::*;

verus! {

/// Whether `c` is a hexadecimal digit in lower case.
pub open spec fn is_lower_hex(c: char) -> bool {
    ('0' <= c && c <= '9') || ('a' <= c && c <= 'f')
}

/// Whether position `i` of a token identifier holds a hyphen.
pub open spec fn is_hyphen_position(i: int) -> bool {
    i == 8 || i == 13 || i == 18 || i == 23
}

/// The text form of a version 4 UUID: 36 characters in the groups 8-4-4-4-12,
/// lower-case hexadecimal digits separated by hyphens, with the version digit
/// `4` and a variant digit from `8` to `b`.
pub open spec fn is_token_text(s: Seq<char>) -> bool {
    &&& s.len() == 36
    &&& forall|i: int|
        0 <= i < 36 ==> if is_hyphen_position(i) {
            #[trigger] s[i] == '-'
        } else {
            is_lower_hex(s[i])
        }
    &&& s[14] == '4'
    &&& (s[19] == '8' || s[19] == '9' || s[19] == 'a' || s[19] == 'b')
}

/// Draws a new random identifier.
///
/// Calls `uuid::Uuid::new_v4` and renders the value with its `Display` impl.
/// Trusted: the text is the hyphenated lower-case form of a UUID whose version
/// is 4 and whose variant is the RFC 4122 one. Nothing is claimed about which
/// identifier comes back; two calls may, with negligible probability, agree.
/// The call aborts if the operating system cannot supply random bytes.
#[verifier::external_body]
pub(crate) fn fresh_token_id() -> (id: String)
    ensures
        is_token_text(id@),
{
    Uuid::new_v4().to_string()
}

} // verus!
