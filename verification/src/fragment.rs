use vstd::prelude::*;
use crate::strutil::push_char;
use crate::unicode::{display_width, str_display_width};

verus! {

/// How many terminal columns one grapheme cluster occupies when rendered:
/// one (`Half`) or two (`Full`). A fragment never renders to zero columns.
#[derive(Debug, Clone, Copy, PartialEq, Eq)]
pub enum GraphemeWidth {
    Full,
    Half,
}

impl GraphemeWidth {
    /// The number of columns this width class stands for.
    pub open spec fn columns(self) -> int {
        match self {
            GraphemeWidth::Half => 1,
            GraphemeWidth::Full => 2,
        }
    }

    /// Adds this width to a running column position, saturating at the
    /// machine limit.
    pub fn saturating_add(&self, other: usize) -> (r: usize)
        ensures
            r == crate::geometry::cap_usize(other + self.columns()),
    {
        match self {
            GraphemeWidth::Half => other.saturating_add(1),
            GraphemeWidth::Full => other.saturating_add(2),
        }
    }
}

/// The mathematical model of a text fragment: the characters of its
/// grapheme cluster, its rendered width in columns, and the substitute
/// character shown in place of a zero-width cluster.
#[verifier::ext_equal]
pub struct FragModel {
    pub g: Seq<char>,
    pub w: int,
    pub rep: Option<char>,
}

/// The fragment that construction assigns to a grapheme cluster: one
/// column for measured widths zero and one, two columns otherwise, and
/// a visible placeholder exactly when the measured width is zero.
pub open spec fn frag_of(g: Seq<char>) -> FragModel {
    FragModel {
        g: g,
        w: if display_width(g) <= 1 { 1 } else { 2 },
        rep: if display_width(g) == 0 { Some('.') } else { None },
    }
}

/// One user-perceived character as it is rendered: the grapheme cluster,
/// its display width class, and an optional substitute glyph for
/// zero-width input.
pub struct TextFragment {
    pub grapheme: String,
    pub rendered_width: GraphemeWidth,
    pub replacement: Option<char>,
}

impl View for TextFragment {
    type V = FragModel;

    open spec fn view(&self) -> FragModel {
        FragModel {
            g: self.grapheme@,
            w: self.rendered_width.columns(),
            rep: self.replacement,
        }
    }
}

impl TextFragment {
    /// Builds the fragment for one grapheme cluster, measuring its display
    /// width once. Measured widths zero and one render as `Half` (one
    /// column), anything wider as `Full` (two columns); a zero-width
    /// cluster carries a visible placeholder so it still occupies a column.
    pub fn new(grapheme: String) -> (f: TextFragment)
        ensures
            f@ == frag_of(grapheme@),
            display_width(grapheme@) <= 1 ==> f.rendered_width == GraphemeWidth::Half,
            display_width(grapheme@) >= 2 ==> f.rendered_width == GraphemeWidth::Full,
            display_width(grapheme@) == 0 ==> f.replacement == Some('.'),
            display_width(grapheme@) >= 1 ==> f.replacement is None,
    {
        let w = str_display_width(grapheme.as_str());
        let rendered_width = if w <= 1 {
            GraphemeWidth::Half
        } else {
            GraphemeWidth::Full
        };
        let replacement = if w == 0 {
            Some('.')
        } else {
            None
        };
        TextFragment { grapheme, rendered_width, replacement }
    }

    /// Builds the fragment for a single character.
    pub fn from_char(c: char) -> (f: TextFragment)
        ensures
            f@ == frag_of(seq![c]),
    {
        let mut g = String::new();
        push_char(&mut g, c);
        TextFragment::new(g)
    }
}

} // verus!
