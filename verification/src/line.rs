use vstd::prelude::*;
use vstd::assert_seqs_equal;
use crate::fragment::{frag_of, FragModel, TextFragment};
use crate::geometry::cap_usize;
use crate::strutil::push_char;
use crate::unicode::{display_width, grapheme_split, split_graphemes};
use vstd::string::StringExecFns;
use core::ops::Range;

verus! {

/// The model of a sequence of fragments.
pub open spec fn line_view(fragments: Seq<TextFragment>) -> Seq<FragModel> {
    fragments.map_values(|f: TextFragment| f@)
}

/// The fragments that a sequence of grapheme clusters converts to,
/// one fragment per cluster, in order.
pub open spec fn frags_of_graphemes(gs: Seq<Seq<char>>) -> Seq<FragModel> {
    gs.map_values(|g: Seq<char>| frag_of(g))
}

/// The underlying text of a sequence of fragments: the grapheme clusters
/// concatenated in order, ignoring replacements.
pub open spec fn raw_text(frags: Seq<FragModel>) -> Seq<char>
    decreases frags.len(),
{
    if frags.len() == 0 {
        Seq::empty()
    } else {
        raw_text(frags.drop_last()) + frags.last().g
    }
}

/// What one fragment shows on screen: its replacement character when it
/// has one, its grapheme cluster otherwise.
pub open spec fn glyph(f: FragModel) -> Seq<char> {
    match f.rep {
        Some(c) => seq![c],
        None => f.g,
    }
}

/// The visible text of a sequence of fragments: the glyphs concatenated
/// in order.
pub open spec fn visible_text(frags: Seq<FragModel>) -> Seq<char>
    decreases frags.len(),
{
    if frags.len() == 0 {
        Seq::empty()
    } else {
        visible_text(frags.drop_last()) + glyph(frags.last())
    }
}

/// The total rendered width, in columns, of the first `n` fragments
/// (of all of them when `n` exceeds their number).
pub open spec fn width_upto(frags: Seq<FragModel>, n: int) -> int
    decreases n,
{
    if n <= 0 {
        0
    } else {
        width_upto(frags, n - 1) + if n - 1 < frags.len() {
            frags[n - 1].w
        } else {
            0
        }
    }
}

/// What an insertion at `at` does to the fragments: a new fragment for
/// the character when `at` is within bounds, nothing otherwise.
pub open spec fn spec_insert_char(frags: Seq<FragModel>, c: char, at: int) -> Seq<FragModel> {
    if 0 <= at <= frags.len() {
        frags.insert(at, frag_of(seq![c]))
    } else {
        frags
    }
}

/// What a deletion at `at` does to the fragments: removes the one
/// fragment there when `at` is within bounds, nothing otherwise.
pub open spec fn spec_delete(frags: Seq<FragModel>, at: int) -> Seq<FragModel> {
    if 0 <= at < frags.len() {
        frags.remove(at)
    } else {
        frags
    }
}

/// An index clamped to `[0, len]`.
pub open spec fn clamp_index(at: int, len: int) -> int {
    if at < 0 {
        0
    } else if at > len {
        len
    } else {
        at
    }
}

/// The visible portion of a fragment sequence inside the column window
/// `[start, end)`, scanning from column `pos`. A fragment wholly inside
/// the window shows its glyph; one that straddles a window boundary is
/// substituted by a single ellipsis; one wholly outside shows nothing.
/// Column positions saturate at the machine limit, as the scan does.
pub open spec fn visible_window(frags: Seq<FragModel>, pos: int, start: int, end: int) -> Seq<
    char,
>
    decreases frags.len(),
{
    if frags.len() == 0 || pos >= end {
        Seq::empty()
    } else {
        let fe = cap_usize(pos + frags[0].w);
        let rest = visible_window(frags.drop_first(), fe, start, end);
        if fe <= start {
            rest
        } else if fe > end || pos < start {
            seq!['\u{22EF}'] + rest
        } else {
            glyph(frags[0]) + rest
        }
    }
}

/// The text that a column-range request yields: empty for an empty or
/// reversed window, the visible window otherwise.
pub open spec fn window_text(frags: Seq<FragModel>, start: int, end: int) -> Seq<char> {
    if start >= end {
        Seq::empty()
    } else {
        visible_window(frags, 0, start, end)
    }
}

/// One line of text: an ordered sequence of grapheme fragments, in
/// left-to-right text order.
pub struct Line {
    fragments: Vec<TextFragment>,
}

impl View for Line {
    type V = Seq<FragModel>;

    closed spec fn view(&self) -> Seq<FragModel> {
        line_view(self.fragments@)
    }
}

impl Line {
    /// Converts a raw text record into a line, one fragment per extended
    /// grapheme cluster, assigning widths and replacements once, at
    /// construction. The conversion is lossless: the fragments' clusters
    /// concatenate back to the record, and — when no cluster measures
    /// zero columns wide — so does the visible text.
    pub fn from(line_str: &str) -> (l: Line)
        ensures
            l@ == frags_of_graphemes(grapheme_split(line_str@)),
            raw_text(l@) == line_str@,
            (forall|i: int|
                0 <= i < grapheme_split(line_str@).len() ==> display_width(
                    #[trigger] grapheme_split(line_str@)[i],
                ) != 0) ==> visible_text(l@) == line_str@,
    {
        let graphemes = split_graphemes(line_str);
        let ghost gs = grapheme_split(line_str@);
        let mut fragments: Vec<TextFragment> = Vec::new();
        proof {
            assert_seqs_equal!(line_view(fragments@) == frags_of_graphemes(gs.take(0)));
        }
        let mut i: usize = 0;
        while i < graphemes.len()
            invariant
                i <= graphemes.len(),
                graphemes@.map_values(|g: String| g@) == gs,
                line_view(fragments@) == frags_of_graphemes(gs.take(i as int)),
            decreases graphemes.len() - i,
        {
            let g = graphemes[i].clone();
            proof {
                assert(graphemes@.map_values(|g: String| g@)[i as int] == gs[i as int]);
                assert(g@ == gs[i as int]);
            }
            let frag = TextFragment::new(g);
            let ghost fm = frag@;
            let ghost pre = fragments@;
            fragments.push(frag);
            proof {
                assert(fm == frag_of(gs[i as int]));
                assert(fragments@ == pre.push(frag));
                assert(line_view(pre).len() == pre.len());
                assert(pre.len() == i);
                assert_seqs_equal!(line_view(fragments@) == frags_of_graphemes(gs.take(i + 1)), j => {
                    if j < i {
                        assert(fragments@[j] == pre[j]);
                        assert(line_view(fragments@)[j] == line_view(pre)[j]);
                        assert(line_view(pre)[j] == frags_of_graphemes(gs.take(i as int))[j]);
                        assert(frags_of_graphemes(gs.take(i + 1))[j] == frag_of(gs[j]));
                        assert(frags_of_graphemes(gs.take(i as int))[j] == frag_of(gs[j]));
                    } else {
                        assert(fragments@[j] == frag);
                        assert(line_view(fragments@)[j] == fm);
                        assert(frags_of_graphemes(gs.take(i + 1))[j] == frag_of(gs[i as int]));
                    }
                });
            }
            i = i + 1;
        }
        proof {
            assert(gs.take(gs.len() as int) == gs);
        }
        let l = Line { fragments };
        proof {
            lemma_raw_text_of_graphemes(gs);
            assert(gs.flatten() == line_str@);
            if forall|j: int|
                0 <= j < gs.len() ==> display_width(#[trigger] gs[j]) != 0 {
                lemma_visible_text_of_graphemes(gs);
            }
        }
        l
    }

    /// The number of grapheme fragments in the line (not bytes, not
    /// columns).
    pub fn grapheme_count(&self) -> (n: usize)
        ensures
            n == self@.len(),
    {
        self.fragments.len()
    }

    /// The number of grapheme fragments in the line.
    pub fn len(&self) -> (n: usize)
        ensures
            n == self@.len(),
    {
        self.fragments.len()
    }

    /// Inserts a fragment for `c` at grapheme index `at`; a request past
    /// the end of the line is a no-op.
    pub fn insert_char(&mut self, c: char, at: usize)
        ensures
            final(self)@ == spec_insert_char(old(self)@, c, at as int),
    {
        if at <= self.fragments.len() {
            let f = TextFragment::from_char(c);
            self.fragments.insert(at, f);
            proof {
                assert_seqs_equal!(
                    line_view(self.fragments@) == old(self)@.insert(at as int, frag_of(seq![c]))
                );
            }
        }
    }

    /// Removes the one fragment at grapheme index `at`; a request at or
    /// past the end of the line is a no-op.
    pub fn delete(&mut self, at: usize)
        ensures
            final(self)@ == spec_delete(old(self)@, at as int),
    {
        if at < self.fragments.len() {
            self.fragments.remove(at);
            proof {
                assert_seqs_equal!(
                    line_view(self.fragments@) == old(self)@.remove(at as int)
                );
            }
        }
    }

    /// Splits the line at grapheme index `at` (clamped to the line's
    /// bounds), truncating it to the head and returning the tail as a
    /// new line.
    pub fn split(&mut self, at: usize) -> (tail: Line)
        ensures
            final(self)@ == old(self)@.take(clamp_index(at as int, old(self)@.len() as int)),
            tail@ == old(self)@.skip(clamp_index(at as int, old(self)@.len() as int)),
    {
        let k = if at <= self.fragments.len() {
            at
        } else {
            self.fragments.len()
        };
        let rest = self.fragments.split_off(k);
        proof {
            assert_seqs_equal!(
                line_view(self.fragments@) == old(self)@.take(clamp_index(at as int, old(self)@.len() as int))
            );
            assert_seqs_equal!(
                line_view(rest@) == old(self)@.skip(clamp_index(at as int, old(self)@.len() as int))
            );
        }
        Line { fragments: rest }
    }

    /// Appends another line's fragments onto the end of this one.
    pub fn append(&mut self, other: Line)
        ensures
            final(self)@ == old(self)@ + other@,
    {
        let mut o = other;
        let ghost tail = o.fragments@;
        self.fragments.append(&mut o.fragments);
        proof {
            assert_seqs_equal!(
                line_view(self.fragments@) == old(self)@ + line_view(tail)
            );
        }
    }
}

/// Inserting a fragment at an index and then deleting at the same index
/// restores the original fragments, at every index.
pub proof fn lemma_insert_then_delete(frags: Seq<FragModel>, c: char, at: int)
    ensures
        spec_delete(spec_insert_char(frags, c, at), at) == frags,
{
    if 0 <= at <= frags.len() {
        assert_seqs_equal!(
            spec_delete(spec_insert_char(frags, c, at), at) == frags
        );
    }
}

/// Splitting at an index in `[0, len]` and then concatenating the two
/// halves restores the original fragments.
pub proof fn lemma_split_then_append(frags: Seq<FragModel>, at: int)
    requires
        0 <= at <= frags.len(),
    ensures
        frags.take(clamp_index(at, frags.len() as int)) + frags.skip(
            clamp_index(at, frags.len() as int),
        ) == frags,
{
    assert_seqs_equal!(
        frags.take(clamp_index(at, frags.len() as int))
            + frags.skip(clamp_index(at, frags.len() as int)) == frags
    );
}

/// The fragments built from a sequence of grapheme clusters carry
/// exactly those clusters: their concatenated text is the clusters'
/// concatenation.
proof fn lemma_raw_text_of_graphemes(gs: Seq<Seq<char>>)
    ensures
        raw_text(frags_of_graphemes(gs)) == gs.flatten(),
    decreases gs.len(),
{
    if gs.len() == 0 {
        assert(raw_text(frags_of_graphemes(gs)) =~= gs.flatten());
    } else {
        lemma_raw_text_of_graphemes(gs.drop_last());
        assert(frags_of_graphemes(gs).drop_last() =~= frags_of_graphemes(gs.drop_last()));
        gs.lemma_flatten_and_flatten_alt_are_equivalent();
        gs.drop_last().lemma_flatten_and_flatten_alt_are_equivalent();
        assert(gs.flatten_alt() == gs.drop_last().flatten_alt() + gs.last());
    }
}

/// When no cluster measures zero columns, no fragment carries a
/// replacement, so the visible text equals the underlying text.
proof fn lemma_visible_text_of_graphemes(gs: Seq<Seq<char>>)
    requires
        forall|i: int| 0 <= i < gs.len() ==> display_width(#[trigger] gs[i]) != 0,
    ensures
        visible_text(frags_of_graphemes(gs)) == gs.flatten(),
    decreases gs.len(),
{
    if gs.len() == 0 {
        assert(visible_text(frags_of_graphemes(gs)) =~= gs.flatten());
    } else {
        lemma_visible_text_of_graphemes(gs.drop_last());
        assert(frags_of_graphemes(gs).drop_last() =~= frags_of_graphemes(gs.drop_last()));
        assert(glyph(frags_of_graphemes(gs).last()) == gs.last());
        gs.lemma_flatten_and_flatten_alt_are_equivalent();
        gs.drop_last().lemma_flatten_and_flatten_alt_are_equivalent();
        assert(gs.flatten_alt() == gs.drop_last().flatten_alt() + gs.last());
    }
}

} // verus!

verus! {

/// Every fragment of a line renders to one or two columns.
pub open spec fn frags_wf(frags: Seq<FragModel>) -> bool {
    forall|i: int| 0 <= i < frags.len() ==> 1 <= (#[trigger] frags[i]).w <= 2
}

/// A line's model is always well formed: each fragment's width class
/// stands for one or two columns.
pub proof fn lemma_line_view_wf(l: Line)
    ensures
        frags_wf(l@),
{
}

/// The prefix-width sum is unchanged once the count passes the number
/// of fragments.
proof fn lemma_width_upto_beyond(frags: Seq<FragModel>, n: int)
    requires
        n >= frags.len(),
    ensures
        width_upto(frags, n) == width_upto(frags, frags.len() as int),
    decreases n,
{
    if n > frags.len() {
        lemma_width_upto_beyond(frags, n - 1);
    }
}

/// The prefix-width sum of well-formed fragments is never negative.
proof fn lemma_width_upto_nonneg(frags: Seq<FragModel>, n: int)
    requires
        frags_wf(frags),
    ensures
        width_upto(frags, n) >= 0,
    decreases n,
{
    if n > 0 {
        lemma_width_upto_nonneg(frags, n - 1);
    }
}

impl Line {
    /// The column at which the fragment with the given grapheme index
    /// begins: the sum of the rendered widths of all fragments strictly
    /// before it, saturating at the machine limit. Maps a logical cursor
    /// index to a physical column.
    pub fn width_until(&self, grapheme_index: usize) -> (r: usize)
        ensures
            r == cap_usize(width_upto(self@, grapheme_index as int)),
    {
        proof {
            lemma_line_view_wf(*self);
        }
        let end = if grapheme_index <= self.fragments.len() {
            grapheme_index
        } else {
            self.fragments.len()
        };
        let mut acc: usize = 0;
        let mut i: usize = 0;
        while i < end
            invariant
                i <= end,
                end == if grapheme_index as int <= self@.len() { grapheme_index as int } else { self@.len() as int },
                frags_wf(self@),
                acc == cap_usize(width_upto(self@, i as int)),
            decreases end - i,
        {
            proof {
                lemma_width_upto_nonneg(self@, i as int);
                assert(self@[i as int] == self.fragments@[i as int]@);
            }
            acc = self.fragments[i].rendered_width.saturating_add(acc);
            i = i + 1;
        }
        proof {
            if grapheme_index as int > self@.len() {
                lemma_width_upto_beyond(self@, grapheme_index as int);
            }
        }
        acc
    }

    /// Extracts the substring of the rendered output that covers the
    /// requested column window. A fragment straddling a window boundary
    /// is replaced by a single ellipsis placeholder rather than shown
    /// partially; a window with `start >= end` yields an empty result.
    pub fn get_visible_graphemes(&self, range: Range<usize>) -> (r: String)
        ensures
            r@ == window_text(self@, range.start as int, range.end as int),
    {
        let start = range.start;
        let end = range.end;
        let mut result = String::new();
        if start >= end {
            return result;
        }
        let n = self.fragments.len();
        let mut current_pos: usize = 0;
        let mut i: usize = 0;
        proof {
            assert_seqs_equal!(self@.skip(0) == self@);
            assert(result@ + visible_window(self@, 0, start as int, end as int)
                =~= visible_window(self@, 0, start as int, end as int));
        }
        while i < n && current_pos < end
            invariant
                i <= n,
                n == self@.len(),
                start < end,
                result@ + visible_window(
                    self@.skip(i as int),
                    current_pos as int,
                    start as int,
                    end as int,
                ) == visible_window(self@, 0, start as int, end as int),
            decreases n - i,
        {
            let ghost vv = self@.skip(i as int);
            proof {
                assert(vv[0] == self@[i as int]);
                assert(self@[i as int] == self.fragments@[i as int]@);
                assert_seqs_equal!(vv.drop_first() == self@.skip(i + 1));
            }
            let fragment = &self.fragments[i];
            let fragment_end = fragment.rendered_width.saturating_add(current_pos);
            proof {
                assert(fragment_end == cap_usize(current_pos + vv[0].w));
            }
            if fragment_end > start {
                if fragment_end > end || current_pos < start {
                    push_char(&mut result, '\u{22EF}');
                } else {
                    match fragment.replacement {
                        Some(ch) => {
                            push_char(&mut result, ch);
                        },
                        None => {
                            result.append(fragment.grapheme.as_str());
                        },
                    }
                }
            }
            current_pos = fragment_end;
            i = i + 1;
        }
        proof {
            assert(visible_window(
                self@.skip(i as int),
                current_pos as int,
                start as int,
                end as int,
            ) =~= Seq::<char>::empty());
            assert(result@ + Seq::<char>::empty() =~= result@);
        }
        result
    }

    /// The text of the fragments whose grapheme indices fall in the
    /// requested range, with the end clamped to the line's bounds.
    pub fn get(&self, range: Range<usize>) -> (r: String)
        ensures
            r@ == range_text(self@, range.start as int, range.end as int),
    {
        let start = range.start;
        let end = if range.end <= self.fragments.len() {
            range.end
        } else {
            self.fragments.len()
        };
        let mut result = String::new();
        if start > end {
            return result;
        }
        let mut i: usize = start;
        while i < end
            invariant
                start <= i <= end,
                end == if range.end as int <= self@.len() { range.end as int } else { self@.len() as int },
                result@ == raw_text(self@.subrange(start as int, i as int)),
            decreases end - i,
        {
            proof {
                assert(self@[i as int] == self.fragments@[i as int]@);
            }
            result.append(self.fragments[i].grapheme.as_str());
            proof {
                assert_seqs_equal!(
                    self@.subrange(start as int, i + 1).drop_last()
                        == self@.subrange(start as int, i as int)
                );
            }
            i = i + 1;
        }
        result
    }

    /// The whole underlying text of the line: every fragment's grapheme
    /// cluster, concatenated. This is the form a line takes in a saved
    /// record.
    pub fn content(&self) -> (r: String)
        ensures
            r@ == raw_text(self@),
    {
        let r = self.get(Range { start: 0, end: self.fragments.len() });
        proof {
            assert_seqs_equal!(self@.subrange(0, self@.len() as int) == self@);
        }
        r
    }

    /// The whole visible text of the line: every fragment's glyph —
    /// its replacement when it has one, its cluster otherwise —
    /// concatenated.
    pub fn visible_string(&self) -> (r: String)
        ensures
            r@ == visible_text(self@),
    {
        let n = self.fragments.len();
        let mut result = String::new();
        let mut i: usize = 0;
        while i < n
            invariant
                i <= n,
                n == self@.len(),
                result@ == visible_text(self@.take(i as int)),
            decreases n - i,
        {
            proof {
                assert(self@[i as int] == self.fragments@[i as int]@);
            }
            match self.fragments[i].replacement {
                Some(ch) => {
                    push_char(&mut result, ch);
                },
                None => {
                    result.append(self.fragments[i].grapheme.as_str());
                },
            }
            proof {
                assert_seqs_equal!(
                    self@.take(i + 1).drop_last() == self@.take(i as int)
                );
                assert(self@.take(i + 1).last() == self@[i as int]);
            }
            i = i + 1;
        }
        proof {
            assert_seqs_equal!(self@.take(self@.len() as int) == self@);
        }
        result
    }
}

impl Default for Line {
    /// An empty line, with no fragments.
    fn default() -> (l: Line)
        ensures
            l@ == Seq::<FragModel>::empty(),
    {
        let l = Line { fragments: Vec::new() };
        proof {
            assert(l@ =~= Seq::<FragModel>::empty());
        }
        l
    }
}

/// The text that a clamped index range of the fragments spells out.
pub open spec fn range_text(frags: Seq<FragModel>, start: int, end: int) -> Seq<char> {
    let e = if end > frags.len() {
        frags.len() as int
    } else {
        end
    };
    if 0 <= start <= e {
        raw_text(frags.subrange(start, e))
    } else {
        Seq::empty()
    }
}

} // verus!
