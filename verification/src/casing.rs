//! Unicode case mapping, as the standard library performs it.

use vstd::prelude::*;

verus! {

/// The lower-case form of a text.
pub uninterp spec fn lowercase_of(text: Seq<char>) -> Seq<char>;

/// The upper-case form of a character: one character for most, several for
/// some scripts.
pub uninterp spec fn uppercase_of(c: char) -> Seq<char>;

/// Lower-cases a text with `str::to_lowercase`. The mapping is Unicode's and
/// depends on the text alone; the contract only gives it its name.
#[verifier::external_body]
pub(crate) fn to_lowercase(text: &str) -> (lower: String)
    ensures
        lower@ == lowercase_of(text@),
{
    text.to_lowercase()
}

/// Upper-cases a character with `char::to_uppercase`, collected into a
/// string. The mapping is Unicode's and depends on the character alone; the
/// contract only gives it its name.
#[verifier::external_body]
pub(crate) fn to_uppercase(c: char) -> (upper: String)
    ensures
        upper@ == uppercase_of(c),
{
    c.to_uppercase().to_string()
}

/// `String::push` appends one character at the end.
pub assume_specification[ String::push ](text: &mut String, c: char)
    ensures
        final(text)@ == old(text)@.push(c),
;

} // verus!
