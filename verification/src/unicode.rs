use vstd::prelude::*;
use unicode_segmentation::UnicodeSegmentation;
use unicode_width::UnicodeWidthStr;

verus! {

/// How a string breaks into extended grapheme clusters, in text order.
/// The result is a function of the characters alone.
pub uninterp spec fn grapheme_split(s: Seq<char>) -> Seq<Seq<char>>;

/// The number of terminal columns a string occupies when displayed.
/// The result is a function of the characters alone.
pub uninterp spec fn display_width(s: Seq<char>) -> nat;

/// Relies on `unicode_segmentation::UnicodeSegmentation::graphemes`:
/// the extended grapheme clusters of the string, in order. The clusters
/// are consecutive non-empty substrings that concatenate back to the
/// original string.
#[verifier::external_body]
pub fn split_graphemes(s: &str) -> (r: Vec<String>)
    ensures
        r@.map_values(|g: String| g@) == grapheme_split(s@),
        r@.map_values(|g: String| g@).flatten() == s@,
        forall|i: int| 0 <= i < r@.len() ==> r@[i]@.len() > 0,
{
    s.graphemes(true).map(|g| g.to_string()).collect()
}

/// Relies on `unicode_width::UnicodeWidthStr::width`: the displayed
/// width of the string in columns, with ambiguous-width characters
/// counted as one column.
#[verifier::external_body]
pub fn str_display_width(s: &str) -> (r: usize)
    ensures
        r == display_width(s@),
{
    UnicodeWidthStr::width(s)
}

} // verus!
