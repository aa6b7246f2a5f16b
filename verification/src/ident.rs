//! Fresh identifiers.

use vstd::prelude::*;

verus! {

/// A lower-case hexadecimal digit.
pub open spec fn is_lower_hex(c: char) -> bool {
    ('0' <= c && c <= '9') || ('a' <= c && c <= 'f')
}

/// The text has the hyphenated shape of a UUID: thirty-six characters, a
/// hyphen after the eighth, the twelfth, the sixteenth and the twentieth
/// digit, and lower-case hexadecimal digits everywhere else.
pub open spec fn is_hyphenated_id(text: Seq<char>) -> bool {
    &&& text.len() == 36
    &&& forall|i: int|
        0 <= i < 36 ==> if i == 8 || i == 13 || i == 18 || i == 23 {
            #[trigger] text[i] == '-'
        } else {
            is_lower_hex(#[trigger] text[i])
        }
}

/// Calls `uuid::Uuid::new_v4` and renders the identifier with its `Display`
/// impl. Chance decides the digits; the contract claims only the hyphenated
/// shape that every rendered UUID has.
#[verifier::external_body]
pub(crate) fn fresh_id() -> (id: String)
    ensures
        is_hyphenated_id(id@),
{
    uuid::Uuid::new_v4().to_string()
}

} // verus!
