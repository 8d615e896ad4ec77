//! Blank text: text that holds nothing but white space.

use vstd::prelude::*;

verus! {

/// Whether a character is white space to `char::is_whitespace`, that is,
/// whether Unicode gives it the property `White_Space`.
pub uninterp spec fn is_white_space(c: char) -> bool;

/// `char::is_whitespace` of std. Its answer depends on the character alone
/// and is the one that `is_white_space` stands for; nothing is claimed of
/// which characters those are.
pub assume_specification[ char::is_whitespace ](c: char) -> (white: bool)
    ensures
        white == is_white_space(c),
;

/// Text is blank when each of its characters is white space; empty text is
/// blank.
pub open spec fn blank(text: Seq<char>) -> bool {
    forall|i: int| 0 <= i < text.len() ==> is_white_space(#[trigger] text[i])
}

/// Tells whether nothing would be left of `text` once the white space at
/// both of its ends is taken away.
pub fn is_blank(text: &str) -> (all_white: bool)
    ensures
        all_white == blank(text@),
{
    let n = text.unicode_len();
    let mut i: usize = 0;
    while i < n
        invariant
            n == text@.len(),
            i <= n,
            forall|j: int| 0 <= j < i ==> is_white_space(#[trigger] text@[j]),
        decreases n - i,
    {
        let c = text.get_char(i);
        if !c.is_whitespace() {
            return false;
        }
        i += 1;
    }
    true
}

} // verus!
