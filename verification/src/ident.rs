//! Identifier generation: short random tokens used to namespace definitions
//! inside a vector document, so that two images rendered into the same page
//! never collide on internal ids.

use vstd::prelude::*;

verus! {

/// A character that needs no escaping in an XML attribute value or a CSS
/// `url(#id)` reference: a letter, a digit, `_` or `-`.
pub open spec fn id_char(c: char) -> bool {
    ('a' <= c && c <= 'z') || ('A' <= c && c <= 'Z') || ('0' <= c && c <= '9') || c == '_' || c
        == '-'
}

/// A well-formed generated identifier: exactly ten characters, all from the
/// safe alphabet.
pub open spec fn valid_id(id: Seq<char>) -> bool {
    &&& id.len() == 10
    &&& forall|i: int| 0 <= i < id.len() ==> id_char(#[trigger] id[i])
}

/// Relies on `nanoid::format` with `nanoid::alphabet::SAFE`: returns exactly
/// the requested number of characters, each drawn from `A-Za-z0-9_-`. The
/// result is random; nothing beyond alphabet and length holds of it.
#[verifier::external_body]
pub fn safe_id() -> (r: String)
    ensures
        valid_id(r@),
{
    nanoid::format(nanoid::rngs::default, &nanoid::alphabet::SAFE, 10)
}

} // verus!
