//! Fresh row identifiers: random (version 4) UUIDs in their text form.

use uuid::Uuid;
use vstd::prelude::*;

verus! {

/// A lower-case hexadecimal digit.
pub open spec fn is_lower_hex(c: char) -> bool {
    ('0' <= c && c <= '9') || ('a' <= c && c <= 'f')
}

/// The text is a random UUID in hyphenated lower-case form, such as
/// `67e55044-10b1-426f-9247-bb680e5fe0c8`: 32 hex digits in groups of
/// 8-4-4-4-12, version digit `4`, variant digit one of `8 9 a b`.
pub open spec fn is_uuid_v4_text(s: Seq<char>) -> bool {
    &&& s.len() == 36
    &&& forall|i: int|
        0 <= i < 36 ==> if i == 8 || i == 13 || i == 18 || i == 23 {
            s[i] == '-'
        } else {
            is_lower_hex(#[trigger] s[i])
        }
    &&& s[14] == '4'
    &&& (s[19] == '8' || s[19] == '9' || s[19] == 'a' || s[19] == 'b')
}

/// Calls `uuid::Uuid::new_v4` and formats it with `to_string`.  Claims only
/// the shape every outcome has (random UUID, hyphenated lower-case text);
/// which UUID comes back is the random generator's.
#[verifier::external_body]
pub(crate) fn uuid_v4_text() -> (r: String)
    ensures
        is_uuid_v4_text(r@),
{
    Uuid::new_v4().to_string()
}

} // verus!
