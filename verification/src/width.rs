//! The width that a text takes on a terminal.
use unicode_width::UnicodeWidthStr;
use vstd::prelude::*;

verus! {

/// The number of terminal columns that `text` takes when it is displayed, wide
/// glyphs counting for two and combining marks for none.
pub uninterp spec fn display_width(text: Seq<char>) -> usize;

/// Calls `unicode_width::UnicodeWidthStr::width`, which computes the displayed
/// width of a string from the Unicode tables alone: the same text always has the
/// same width, and that width is what `display_width` stands for.
#[verifier::external_body]
pub(crate) fn width(text: &str) -> (columns: usize)
    ensures
        columns == display_width(text@),
{
    UnicodeWidthStr::width(text)
}

} // verus!
