use vstd::prelude::*;
use crate::buffer::{spec_buffer_insert_char, Buffer};
use crate::command::{Direction, EditorCommand, InsertCommand, NormalCommand};
use crate::fragment::FragModel;
use crate::geometry::{cap_usize, Location, Position, Size};
use crate::line::{frags_of_graphemes, raw_text, width_upto, window_text};
use crate::unicode::grapheme_split;
use crate::strutil::push_char;
use vstd::string::StringExecFns;
use core::ops::Range;

verus! {

/// A mathematical difference clamped at zero, mirroring saturating
/// subtraction.
pub open spec fn sat_sub_i(a: int, b: int) -> int {
    if a >= b {
        a - b
    } else {
        0
    }
}

/// The smaller of two mathematical values.
pub open spec fn min_i(a: int, b: int) -> int {
    if a <= b {
        a
    } else {
        b
    }
}

/// Where one scroll axis lands when the cursor sits at coordinate `to`
/// and the viewport spans `extent` cells from coordinate `cur`: snap up
/// to `to` when the cursor is before the window, down to the last
/// position that keeps it visible when it is past the window, unchanged
/// otherwise.
pub open spec fn scroll_adjust(cur: int, to: int, extent: int) -> int {
    if to < cur {
        to
    } else if to >= cap_usize(cur + extent) {
        cap_usize(sat_sub_i(to, extent) + 1)
    } else {
        cur
    }
}

/// Whether the scroll-into-view step moves this axis.
pub open spec fn scroll_changed(cur: int, to: int, extent: int) -> bool {
    to < cur || to >= cap_usize(cur + extent)
}

/// The view: a document, the logical cursor location, the scroll offset
/// aligning the viewport with the document, the viewport size, and a
/// redraw flag.
pub struct EditorView {
    pub buffer: Buffer,
    pub text_location: Location,
    pub scroll_offset: Position,
    pub size: Size,
    pub needs_redraw: bool,
}

impl EditorView {
    /// The number of graphemes on line `li`; zero when no such line
    /// exists.
    pub open spec fn count_at(self, li: int) -> int {
        if 0 <= li < self.buffer@.len() {
            self.buffer@[li].len() as int
        } else {
            0
        }
    }

    /// Validity of the cursor: its line index never exceeds the
    /// document height and its grapheme index never exceeds the
    /// grapheme count of its line.
    pub open spec fn wf(self) -> bool {
        &&& self.text_location.line_index as int <= self.buffer@.len()
        &&& self.text_location.grapheme_index as int <= self.count_at(
            self.text_location.line_index as int,
        )
    }

    /// The physical column of the cursor: the rendered width of its
    /// line's prefix before the grapheme index; zero when the cursor
    /// sits past the last line.
    pub open spec fn col_of(self) -> int {
        let li = self.text_location.line_index as int;
        if 0 <= li < self.buffer@.len() {
            cap_usize(width_upto(self.buffer@[li], self.text_location.grapheme_index as int))
        } else {
            0
        }
    }
}

/// A location with its grapheme index snapped to the grapheme count of
/// line `li`.
pub open spec fn snapped_loc(v: EditorView, li: int, gi: int) -> Location {
    Location { grapheme_index: min_i(gi, v.count_at(li)) as usize, line_index: li as usize }
}

/// A location with its line index clamped to the document height.
pub open spec fn clamp_line(v: EditorView, loc: Location) -> Location {
    Location {
        grapheme_index: loc.grapheme_index,
        line_index: min_i(loc.line_index as int, v.buffer@.len() as int) as usize,
    }
}

/// Where the cursor lands after one directional movement: steps use
/// saturating arithmetic, vertical movement snaps the grapheme index to
/// the target line and clamps the line index to the document, and
/// horizontal movement at a line boundary stays put.
pub open spec fn loc_after_move(v: EditorView, d: Direction) -> Location {
    let li = v.text_location.line_index as int;
    let gi = v.text_location.grapheme_index as int;
    let page = sat_sub_i(v.size.height as int, 1);
    match d {
        Direction::Up => snapped_loc(v, sat_sub_i(li, 1), gi),
        Direction::Down => clamp_line(v, snapped_loc(v, cap_usize(li + 1), gi)),
        Direction::PageUp => snapped_loc(v, sat_sub_i(li, page), gi),
        Direction::PageDown => clamp_line(v, snapped_loc(v, cap_usize(li + page), gi)),
        Direction::Left => if gi > 0 {
            Location { grapheme_index: (gi - 1) as usize, line_index: li as usize }
        } else {
            v.text_location
        },
        Direction::Right => if gi < v.count_at(li) {
            Location { grapheme_index: (gi + 1) as usize, line_index: li as usize }
        } else {
            v.text_location
        },
        Direction::Home => Location { grapheme_index: 0, line_index: li as usize },
        Direction::End => Location {
            grapheme_index: v.count_at(li) as usize,
            line_index: li as usize,
        },
    }
}

/// What one cursor movement does to the view: the location moves as
/// `loc_after_move` says, the document and viewport stay, and the
/// scroll offset is re-adjusted to keep the cursor visible.
pub open spec fn moved(v0: EditorView, v1: EditorView, d: Direction) -> bool {
    let loc = loc_after_move(v0, d);
    &&& v1.buffer == v0.buffer
    &&& v1.size == v0.size
    &&& v1.text_location == loc
    &&& v1.scroll_offset.row == scroll_adjust(
        v0.scroll_offset.row as int,
        loc.line_index as int,
        v0.size.height as int,
    )
    &&& v1.scroll_offset.col == scroll_adjust(
        v0.scroll_offset.col as int,
        v1.col_of(),
        v0.size.width as int,
    )
    &&& v1.needs_redraw == (v0.needs_redraw || scroll_changed(
        v0.scroll_offset.row as int,
        loc.line_index as int,
        v0.size.height as int,
    ) || scroll_changed(v0.scroll_offset.col as int, v1.col_of(), v0.size.width as int))
}

/// What inserting a character at the cursor does to the view: the
/// document takes the character at the cursor, the cursor advances one
/// grapheme, the scroll offset keeps it visible, and a redraw is due.
pub open spec fn inserted(v0: EditorView, v1: EditorView, c: char) -> bool {
    let li = v0.text_location.line_index as int;
    let gi = v0.text_location.grapheme_index as int;
    &&& v1.buffer@ == spec_buffer_insert_char(v0.buffer@, c, li, gi)
    &&& v1.buffer.dirty
    &&& v1.buffer.file_name == v0.buffer.file_name
    &&& v1.size == v0.size
    &&& v1.text_location.line_index == v0.text_location.line_index
    &&& v1.text_location.grapheme_index as int == gi + 1
    &&& v1.scroll_offset.row == scroll_adjust(
        v0.scroll_offset.row as int,
        li,
        v0.size.height as int,
    )
    &&& v1.scroll_offset.col == scroll_adjust(
        v0.scroll_offset.col as int,
        v1.col_of(),
        v0.size.width as int,
    )
    &&& v1.needs_redraw
}

/// What a viewport resize does to the view: the size is replaced and
/// the scroll offset re-adjusted against the new extents, with a redraw
/// due.
pub open spec fn resized(v0: EditorView, v1: EditorView, to: Size) -> bool {
    &&& v1.buffer == v0.buffer
    &&& v1.text_location == v0.text_location
    &&& v1.size == to
    &&& v1.scroll_offset.row == scroll_adjust(
        v0.scroll_offset.row as int,
        v0.text_location.line_index as int,
        to.height as int,
    )
    &&& v1.scroll_offset.col == scroll_adjust(v0.scroll_offset.col as int, v1.col_of(), to.width as int)
    &&& v1.needs_redraw
}

/// The scroll-into-view step keeps the target coordinate inside a
/// non-empty viewport.
pub proof fn lemma_scroll_adjust_bounds(cur: int, to: int, extent: int)
    requires
        0 <= cur <= usize::MAX,
        0 <= to <= usize::MAX,
        extent >= 1,
    ensures
        scroll_adjust(cur, to, extent) <= to < scroll_adjust(cur, to, extent) + extent,
        0 <= scroll_adjust(cur, to, extent) <= usize::MAX,
{
}

impl EditorView {
    /// A fresh view over an empty document, cursor and scroll at the
    /// origin, with a redraw due.
    pub fn new(size: Size) -> (v: EditorView)
        ensures
            v.buffer@ == Seq::<Seq<FragModel>>::empty(),
            !v.buffer.dirty,
            v.buffer.file_name is None,
            v.text_location == (Location { grapheme_index: 0, line_index: 0 }),
            v.scroll_offset == (Position { col: 0, row: 0 }),
            v.size == size,
            v.needs_redraw,
            v.wf(),
    {
        EditorView {
            buffer: Buffer::default(),
            text_location: Location::default(),
            scroll_offset: Position::default(),
            needs_redraw: true,
            size,
        }
    }

    /// The cursor's physical position in document coordinates: its line
    /// as the row, the rendered width of the line prefix before it as
    /// the column.
    fn text_location_to_position(&self) -> (p: Position)
        ensures
            p.row == self.text_location.line_index,
            p.col == self.col_of(),
    {
        let row = self.text_location.line_index;
        let col = if row < self.buffer.lines.len() {
            proof {
                assert(self.buffer@[row as int] == self.buffer.lines@[row as int]@);
            }
            self.buffer.lines[row].width_until(self.text_location.grapheme_index)
        } else {
            0
        };
        Position { col, row }
    }

    /// Where the caret sits on screen: the cursor's physical position
    /// minus the scroll offset, component-wise.
    pub fn caret_position(&self) -> (p: Position)
        ensures
            p.row == sat_sub_i(self.text_location.line_index as int, self.scroll_offset.row as int),
            p.col == sat_sub_i(self.col_of(), self.scroll_offset.col as int),
    {
        self.text_location_to_position().saturating_sub(self.scroll_offset)
    }

    /// Snaps the vertical scroll so that document row `to` is visible.
    fn scroll_vertically(&mut self, to: usize)
        ensures
            final(self).scroll_offset.row == scroll_adjust(
                old(self).scroll_offset.row as int,
                to as int,
                old(self).size.height as int,
            ),
            final(self).scroll_offset.col == old(self).scroll_offset.col,
            final(self).needs_redraw == (old(self).needs_redraw || scroll_changed(
                old(self).scroll_offset.row as int,
                to as int,
                old(self).size.height as int,
            )),
            final(self).buffer == old(self).buffer,
            final(self).text_location == old(self).text_location,
            final(self).size == old(self).size,
    {
        let height = self.size.height;
        let offset_changed = if to < self.scroll_offset.row {
            self.scroll_offset.row = to;
            true
        } else if to >= self.scroll_offset.row.saturating_add(height) {
            self.scroll_offset.row = to.saturating_sub(height).saturating_add(1);
            true
        } else {
            false
        };
        self.needs_redraw = self.needs_redraw || offset_changed;
    }

    /// Snaps the horizontal scroll so that document column `to` is
    /// visible.
    fn scroll_horizontally(&mut self, to: usize)
        ensures
            final(self).scroll_offset.col == scroll_adjust(
                old(self).scroll_offset.col as int,
                to as int,
                old(self).size.width as int,
            ),
            final(self).scroll_offset.row == old(self).scroll_offset.row,
            final(self).needs_redraw == (old(self).needs_redraw || scroll_changed(
                old(self).scroll_offset.col as int,
                to as int,
                old(self).size.width as int,
            )),
            final(self).buffer == old(self).buffer,
            final(self).text_location == old(self).text_location,
            final(self).size == old(self).size,
    {
        let width = self.size.width;
        let offset_changed = if to < self.scroll_offset.col {
            self.scroll_offset.col = to;
            true
        } else if to >= self.scroll_offset.col.saturating_add(width) {
            self.scroll_offset.col = to.saturating_sub(width).saturating_add(1);
            true
        } else {
            false
        };
        self.needs_redraw = self.needs_redraw || offset_changed;
    }

    /// Re-runs the scroll-into-view step against the cursor's physical
    /// position. Afterwards the cursor is inside the viewport on every
    /// axis whose extent is non-zero.
    fn scroll_text_location_into_view(&mut self)
        ensures
            final(self).scroll_offset.row == scroll_adjust(
                old(self).scroll_offset.row as int,
                old(self).text_location.line_index as int,
                old(self).size.height as int,
            ),
            final(self).scroll_offset.col == scroll_adjust(
                old(self).scroll_offset.col as int,
                old(self).col_of(),
                old(self).size.width as int,
            ),
            final(self).needs_redraw == (old(self).needs_redraw || scroll_changed(
                old(self).scroll_offset.row as int,
                old(self).text_location.line_index as int,
                old(self).size.height as int,
            ) || scroll_changed(
                old(self).scroll_offset.col as int,
                old(self).col_of(),
                old(self).size.width as int,
            )),
            final(self).buffer == old(self).buffer,
            final(self).text_location == old(self).text_location,
            final(self).size == old(self).size,
            old(self).size.height >= 1 ==> final(self).scroll_offset.row
                <= (old(self).text_location.line_index as int)
                < final(self).scroll_offset.row + old(self).size.height,
            old(self).size.width >= 1 ==> final(self).scroll_offset.col <= old(self).col_of()
                < final(self).scroll_offset.col + old(self).size.width,
    {
        let pos = self.text_location_to_position();
        self.scroll_vertically(pos.row);
        self.scroll_horizontally(pos.col);
        proof {
            if old(self).size.height >= 1 {
                lemma_scroll_adjust_bounds(
                    old(self).scroll_offset.row as int,
                    pos.row as int,
                    old(self).size.height as int,
                );
            }
            if old(self).size.width >= 1 {
                lemma_scroll_adjust_bounds(
                    old(self).scroll_offset.col as int,
                    pos.col as int,
                    old(self).size.width as int,
                );
            }
        }
    }

    /// Moves the cursor up by `step` lines, snapping its grapheme index
    /// to the target line.
    fn move_up(&mut self, step: usize)
        ensures
            final(self).text_location == snapped_loc(
                *old(self),
                sat_sub_i(old(self).text_location.line_index as int, step as int),
                old(self).text_location.grapheme_index as int,
            ),
            final(self).buffer == old(self).buffer,
            final(self).scroll_offset == old(self).scroll_offset,
            final(self).size == old(self).size,
            final(self).needs_redraw == old(self).needs_redraw,
    {
        self.text_location.line_index = self.text_location.line_index.saturating_sub(step);
        self.snap_to_valid_grapheme();
    }

    /// Moves the cursor down by `step` lines, snapping its grapheme
    /// index and clamping its line index to the document.
    fn move_down(&mut self, step: usize)
        ensures
            final(self).text_location == clamp_line(
                *old(self),
                snapped_loc(
                    *old(self),
                    cap_usize(old(self).text_location.line_index as int + step as int),
                    old(self).text_location.grapheme_index as int,
                ),
            ),
            final(self).buffer == old(self).buffer,
            final(self).scroll_offset == old(self).scroll_offset,
            final(self).size == old(self).size,
            final(self).needs_redraw == old(self).needs_redraw,
    {
        self.text_location.line_index = self.text_location.line_index.saturating_add(step);
        self.snap_to_valid_grapheme();
        self.snap_to_valid_line();
    }

    /// Moves the cursor one grapheme left within its line; at column
    /// zero it stays put.
    fn move_left(&mut self)
        ensures
            final(self).text_location == loc_after_move(*old(self), Direction::Left),
            final(self).buffer == old(self).buffer,
            final(self).scroll_offset == old(self).scroll_offset,
            final(self).size == old(self).size,
            final(self).needs_redraw == old(self).needs_redraw,
    {
        if self.text_location.grapheme_index > 0 {
            self.text_location.grapheme_index = self.text_location.grapheme_index - 1;
        }
    }

    /// Moves the cursor one grapheme right within its line; at the line
    /// end it stays put.
    fn move_right(&mut self)
        ensures
            final(self).text_location == loc_after_move(*old(self), Direction::Right),
            final(self).buffer == old(self).buffer,
            final(self).scroll_offset == old(self).scroll_offset,
            final(self).size == old(self).size,
            final(self).needs_redraw == old(self).needs_redraw,
    {
        let li = self.text_location.line_index;
        let line_width = if li < self.buffer.lines.len() {
            proof {
                assert(self.buffer@[li as int] == self.buffer.lines@[li as int]@);
            }
            self.buffer.lines[li].grapheme_count()
        } else {
            0
        };
        if self.text_location.grapheme_index < line_width {
            self.text_location.grapheme_index = self.text_location.grapheme_index + 1;
        }
    }

    /// Moves the cursor to the start of its line.
    fn move_to_start_of_line(&mut self)
        ensures
            final(self).text_location == loc_after_move(*old(self), Direction::Home),
            final(self).buffer == old(self).buffer,
            final(self).scroll_offset == old(self).scroll_offset,
            final(self).size == old(self).size,
            final(self).needs_redraw == old(self).needs_redraw,
    {
        self.text_location.grapheme_index = 0;
    }

    /// Moves the cursor to the end of its line.
    fn move_to_end_of_line(&mut self)
        ensures
            final(self).text_location == loc_after_move(*old(self), Direction::End),
            final(self).buffer == old(self).buffer,
            final(self).scroll_offset == old(self).scroll_offset,
            final(self).size == old(self).size,
            final(self).needs_redraw == old(self).needs_redraw,
    {
        let li = self.text_location.line_index;
        self.text_location.grapheme_index = if li < self.buffer.lines.len() {
            proof {
                assert(self.buffer@[li as int] == self.buffer.lines@[li as int]@);
            }
            self.buffer.lines[li].grapheme_count()
        } else {
            0
        };
    }

    /// Clamps the cursor's grapheme index to its line's grapheme count
    /// (zero when the line does not exist).
    fn snap_to_valid_grapheme(&mut self)
        ensures
            final(self).text_location.grapheme_index as int == min_i(
                old(self).text_location.grapheme_index as int,
                old(self).count_at(old(self).text_location.line_index as int),
            ),
            final(self).text_location.line_index == old(self).text_location.line_index,
            final(self).buffer == old(self).buffer,
            final(self).scroll_offset == old(self).scroll_offset,
            final(self).size == old(self).size,
            final(self).needs_redraw == old(self).needs_redraw,
    {
        let li = self.text_location.line_index;
        self.text_location.grapheme_index = if li < self.buffer.lines.len() {
            proof {
                assert(self.buffer@[li as int] == self.buffer.lines@[li as int]@);
            }
            let count = self.buffer.lines[li].grapheme_count();
            if count <= self.text_location.grapheme_index {
                count
            } else {
                self.text_location.grapheme_index
            }
        } else {
            0
        };
    }

    /// Clamps the cursor's line index to the document height.
    fn snap_to_valid_line(&mut self)
        ensures
            final(self).text_location.line_index as int == min_i(
                old(self).text_location.line_index as int,
                old(self).buffer@.len() as int,
            ),
            final(self).text_location.grapheme_index == old(self).text_location.grapheme_index,
            final(self).buffer == old(self).buffer,
            final(self).scroll_offset == old(self).scroll_offset,
            final(self).size == old(self).size,
            final(self).needs_redraw == old(self).needs_redraw,
    {
        let height = self.buffer.height();
        if height < self.text_location.line_index {
            self.text_location.line_index = height;
        }
    }

    /// Applies one directional movement and re-runs the scroll-into-view
    /// step. The cursor never lands outside the document: its line index
    /// stays within the height and its grapheme index within its line.
    fn move_text_location(&mut self, direction: &Direction)
        requires
            old(self).wf(),
        ensures
            moved(*old(self), *final(self), *direction),
            final(self).wf(),
    {
        let height = self.size.height;
        match direction {
            Direction::Up => self.move_up(1),
            Direction::Down => self.move_down(1),
            Direction::Left => self.move_left(),
            Direction::Right => self.move_right(),
            Direction::PageUp => self.move_up(height.saturating_sub(1)),
            Direction::PageDown => self.move_down(height.saturating_sub(1)),
            Direction::Home => self.move_to_start_of_line(),
            Direction::End => self.move_to_end_of_line(),
        }
        self.scroll_text_location_into_view();
    }
}

} // verus!

verus! {

/// The product banner shown on an empty document.
pub open spec fn banner_text() -> Seq<char> {
    "vedit editor -- version 0.1.0"@
}

/// A run of spaces.
pub open spec fn spaces(n: int) -> Seq<char> {
    Seq::new(if n < 0 { 0 } else { n as nat }, |i: int| ' ')
}

/// The welcome row for a given viewport width: a single space when the
/// width is zero, the empty-line marker alone when the banner does not
/// fit, and otherwise the marker, padding that centres the banner, and
/// the banner itself.
pub open spec fn welcome_line(width: int) -> Seq<char> {
    if width <= 0 {
        " "@
    } else if width <= banner_text().len() {
        "~"@
    } else {
        seq!['~'] + spaces((width - banner_text().len() - 1) / 2) + banner_text()
    }
}

/// What one viewport row shows: the visible column window of the
/// document line it maps to; on an empty document, the centred welcome
/// banner at one third of the viewport height; otherwise the empty-line
/// marker.
pub open spec fn row_text(v: EditorView, r: int) -> Seq<char> {
    let li = cap_usize(r + v.scroll_offset.row as int);
    let left = v.scroll_offset.col as int;
    let right = cap_usize(left + v.size.width as int);
    if 0 <= li < v.buffer@.len() {
        window_text(v.buffer@[li], left, right)
    } else if v.buffer@.len() == 0 && r == v.size.height as int / 3 {
        welcome_line(v.size.width as int)
    } else {
        seq!['~']
    }
}

impl EditorView {
    /// Builds the welcome row for the given viewport width.
    pub fn build_welcome_message(width: usize) -> (r: String)
        ensures
            r@ == welcome_line(width as int),
    {
        proof {
            reveal_strlit("vedit editor -- version 0.1.0");
            reveal_strlit(" ");
            reveal_strlit("~");
        }
        if width == 0 {
            return String::from_str(" ");
        }
        let len: usize = 29;
        proof {
            assert(banner_text().len() == 29);
        }
        if width <= len {
            return String::from_str("~");
        }
        let padding = (width - len - 1) / 2;
        let mut welcome = String::from_str("~");
        let mut i: usize = 0;
        while i < padding
            invariant
                i <= padding,
                welcome@ == seq!['~'] + spaces(i as int),
            decreases padding - i,
        {
            push_char(&mut welcome, ' ');
            proof {
                assert(seq!['~'] + spaces(i as int) + seq![' '] =~= seq!['~'] + spaces(i + 1));
            }
            i = i + 1;
        }
        welcome.append("vedit editor -- version 0.1.0");
        proof {
            assert(welcome@ =~= welcome_line(width as int));
        }
        welcome
    }

    /// Computes one render pass, but only when a redraw is due and the
    /// viewport has a non-zero area: one string per viewport row, each
    /// as `row_text` says, clearing the redraw flag afterwards. When no
    /// pass runs, nothing changes and no rows come back.
    pub fn render(&mut self) -> (rows: Vec<String>)
        ensures
            !(old(self).needs_redraw && old(self).size.height > 0 && old(self).size.width > 0)
                ==> (rows@.len() == 0 && *final(self) == *old(self)),
            (old(self).needs_redraw && old(self).size.height > 0 && old(self).size.width > 0)
                ==> {
                &&& rows@.len() == old(self).size.height
                &&& forall|r: int| 0 <= r < rows@.len() ==> (#[trigger] rows@[r])@ == row_text(
                    *old(self),
                    r,
                )
                &&& !final(self).needs_redraw
                &&& final(self).buffer == old(self).buffer
                &&& final(self).text_location == old(self).text_location
                &&& final(self).scroll_offset == old(self).scroll_offset
                &&& final(self).size == old(self).size
            },
    {
        let mut rows: Vec<String> = Vec::new();
        if !self.needs_redraw {
            return rows;
        }
        let height = self.size.height;
        let width = self.size.width;
        if height == 0 || width == 0 {
            return rows;
        }
        let vertical_center = height / 3;
        let top = self.scroll_offset.row;
        let left = self.scroll_offset.col;
        let right = left.saturating_add(width);
        let ghost v0 = *self;
        let mut row: usize = 0;
        while row < height
            invariant
                row <= height,
                *self == v0,
                height == v0.size.height,
                width == v0.size.width,
                vertical_center == v0.size.height as int / 3,
                top == v0.scroll_offset.row,
                left == v0.scroll_offset.col,
                right == cap_usize(left as int + width as int),
                rows@.len() == row,
                forall|r: int| 0 <= r < row ==> (#[trigger] rows@[r])@ == row_text(v0, r),
            decreases height - row,
        {
            let line_index = row.saturating_add(top);
            if line_index < self.buffer.lines.len() {
                proof {
                    assert(self.buffer@[line_index as int]
                        == self.buffer.lines@[line_index as int]@);
                }
                let visible = self.buffer.lines[line_index].get_visible_graphemes(
                    Range { start: left, end: right },
                );
                rows.push(visible);
            } else if self.buffer.is_empty() && row == vertical_center {
                rows.push(Self::build_welcome_message(width));
            } else {
                let marker = String::from_str("~");
                proof {
                    reveal_strlit("~");
                    assert(marker@ =~= seq!['~']);
                }
                rows.push(marker);
            }
            row = row + 1;
        }
        self.needs_redraw = false;
        rows
    }

    /// Replaces the document with one built from the given records (one
    /// line per record, dirty flag clear, associated with the given
    /// path) and marks a redraw due. Cursor, scroll and size stay.
    pub fn load(&mut self, file_name: Option<String>, rows: &Vec<String>)
        ensures
            final(self).buffer@.len() == rows@.len(),
            forall|i: int|
                0 <= i < rows@.len() ==> #[trigger] final(self).buffer@[i] == frags_of_graphemes(
                    grapheme_split(rows@[i]@),
                ),
            forall|i: int|
                0 <= i < rows@.len() ==> raw_text(#[trigger] final(self).buffer@[i]) == rows@[i]@,
            !final(self).buffer.dirty,
            final(self).buffer.file_name == file_name,
            final(self).needs_redraw,
            final(self).text_location == old(self).text_location,
            final(self).scroll_offset == old(self).scroll_offset,
            final(self).size == old(self).size,
    {
        self.buffer = Buffer::from_rows(file_name, rows);
        self.needs_redraw = true;
    }

    /// Replaces the viewport size, re-runs the scroll-into-view step
    /// against the new extents, and marks a redraw due.
    pub fn resize(&mut self, to: Size)
        requires
            old(self).wf(),
        ensures
            resized(*old(self), *final(self), to),
            final(self).wf(),
    {
        self.size = to;
        self.scroll_text_location_into_view();
        self.needs_redraw = true;
    }

    /// Inserts a character at the cursor: the document takes it, the
    /// cursor advances past it, the scroll keeps the cursor visible and
    /// a redraw is due.
    fn insert_at_current_location(&mut self, c: char)
        requires
            old(self).wf(),
        ensures
            inserted(*old(self), *final(self), c),
            final(self).wf(),
    {
        let li = self.text_location.line_index;
        let old_count = if li < self.buffer.lines.len() {
            proof {
                assert(self.buffer@[li as int] == self.buffer.lines@[li as int]@);
            }
            self.buffer.lines[li].grapheme_count()
        } else {
            0
        };
        self.buffer.insert_char(c, self.text_location);
        let new_count = if li < self.buffer.lines.len() {
            proof {
                assert(self.buffer@[li as int] == self.buffer.lines@[li as int]@);
            }
            self.buffer.lines[li].grapheme_count()
        } else {
            0
        };
        if new_count > old_count {
            self.text_location.grapheme_index = self.text_location.grapheme_index + 1;
        }
        self.scroll_text_location_into_view();
        self.needs_redraw = true;
    }

    /// Dispatches one editing command: movement commands move the
    /// cursor, insertion commands insert at the cursor, the placeholder
    /// visual commands do nothing, and the global commands (resize,
    /// mode change, cancel, quit) are left to the session around the
    /// view.
    pub fn handle_command(&mut self, command: EditorCommand)
        requires
            old(self).wf(),
        ensures
            final(self).wf(),
            match command {
                EditorCommand::Normal(nc) => match nc {
                    NormalCommand::Move(d) => moved(*old(self), *final(self), d),
                },
                EditorCommand::Insert(ic) => match ic {
                    InsertCommand::Char(c) => inserted(*old(self), *final(self), c),
                },
                _ => *final(self) == *old(self),
            },
    {
        match command {
            EditorCommand::Normal(normal_command) => match normal_command {
                NormalCommand::Move(direction) => self.move_text_location(&direction),
            },
            EditorCommand::Visual(_visual_command) => {},
            EditorCommand::Insert(insert_command) => match insert_command {
                InsertCommand::Char(c) => self.insert_at_current_location(c),
            },
            _ => {},
        }
    }
}

} // verus!

verus! {

/// After any cursor movement, the scroll offset keeps the cursor inside
/// the viewport whenever the viewport dimensions are non-zero: the
/// cursor's row lies in `[scroll.row, scroll.row + height)` and its
/// physical column in `[scroll.col, scroll.col + width)`.
pub proof fn lemma_movement_keeps_cursor_visible(v0: EditorView, v1: EditorView, d: Direction)
    requires
        moved(v0, v1, d),
    ensures
        v1.size.height >= 1 ==> v1.scroll_offset.row <= (v1.text_location.line_index as int)
            < v1.scroll_offset.row + v1.size.height,
        v1.size.width >= 1 ==> v1.scroll_offset.col <= v1.col_of() < v1.scroll_offset.col
            + v1.size.width,
{
    let loc = loc_after_move(v0, d);
    if v0.size.height >= 1 {
        lemma_scroll_adjust_bounds(
            v0.scroll_offset.row as int,
            loc.line_index as int,
            v0.size.height as int,
        );
    }
    if v0.size.width >= 1 {
        lemma_scroll_adjust_bounds(v0.scroll_offset.col as int, v1.col_of(), v0.size.width as int);
    }
}

/// After an insertion at the cursor, the scroll offset keeps the cursor
/// inside the viewport whenever the viewport dimensions are non-zero.
pub proof fn lemma_insertion_keeps_cursor_visible(v0: EditorView, v1: EditorView, c: char)
    requires
        inserted(v0, v1, c),
    ensures
        v1.size.height >= 1 ==> v1.scroll_offset.row <= (v1.text_location.line_index as int)
            < v1.scroll_offset.row + v1.size.height,
        v1.size.width >= 1 ==> v1.scroll_offset.col <= v1.col_of() < v1.scroll_offset.col
            + v1.size.width,
{
    if v0.size.height >= 1 {
        lemma_scroll_adjust_bounds(
            v0.scroll_offset.row as int,
            v0.text_location.line_index as int,
            v0.size.height as int,
        );
    }
    if v0.size.width >= 1 {
        lemma_scroll_adjust_bounds(v0.scroll_offset.col as int, v1.col_of(), v0.size.width as int);
    }
}

} // verus!
