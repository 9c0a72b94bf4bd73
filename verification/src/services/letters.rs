//! Letters in lower case, beyond ASCII.

use vstd::prelude::*;

use crate::text;

verus! {

/// The lower case of a character, which may be more than one character.
pub uninterp spec fn char_lower(c: char) -> Seq<char>;

/// `char::to_lowercase`: the lower case of a character by Unicode's mappings. An ASCII
/// character has the one character that ASCII gives it.
#[verifier::external_body]
pub(crate) fn lower_char(c: char) -> (r: Vec<char>)
    ensures
        r@ == char_lower(c),
        c as u32 <= 0x7f ==> r@ == seq![text::ascii_lower(c)],
{
    c.to_lowercase().collect()
}

/// A text in lower case.
pub uninterp spec fn text_lower(text: Seq<char>) -> Seq<char>;

/// `str::to_lowercase`: a text in lower case by Unicode's mappings, which look at the
/// neighbours of a few letters.
#[verifier::external_body]
pub(crate) fn lower_text(text: &str) -> (r: String)
    ensures
        r@ == text_lower(text@),
{
    text.to_lowercase()
}

} // verus!
