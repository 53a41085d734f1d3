use vstd::prelude::*;
use vstd::assert_seqs_equal;
use crate::fragment::{frag_of, FragModel};
use crate::geometry::Location;
use crate::line::{
    clamp_index, frags_of_graphemes, raw_text, spec_delete, spec_insert_char, Line,
};
use crate::unicode::grapheme_split;

verus! {

/// The model of a sequence of lines.
pub open spec fn doc_view(lines: Seq<Line>) -> Seq<Seq<FragModel>> {
    lines.map_values(|l: Line| l@)
}

/// What inserting a character at a location does to the document: a new
/// one-fragment line when the location points one past the last line, an
/// insertion into the addressed line when it exists, nothing otherwise.
pub open spec fn spec_buffer_insert_char(
    doc: Seq<Seq<FragModel>>,
    c: char,
    at_line: int,
    at_grapheme: int,
) -> Seq<Seq<FragModel>> {
    if at_line == doc.len() {
        doc.push(seq![frag_of(seq![c])])
    } else if 0 <= at_line < doc.len() {
        doc.update(at_line, spec_insert_char(doc[at_line], c, at_grapheme))
    } else {
        doc
    }
}

/// Whether an insertion at this location actually changes the document.
pub open spec fn insert_mutates(doc: Seq<Seq<FragModel>>, at_line: int, at_grapheme: int) -> bool {
    at_line == doc.len() || (0 <= at_line < doc.len() && at_grapheme <= doc[at_line].len())
}

/// What inserting a line break at a location does to the document: a new
/// empty line when the location points one past the last line; otherwise
/// the addressed line is cut at the grapheme index (clamped to its
/// bounds) and the tail becomes the next line.
pub open spec fn spec_insert_newline(
    doc: Seq<Seq<FragModel>>,
    at_line: int,
    at_grapheme: int,
) -> Seq<Seq<FragModel>> {
    if at_line == doc.len() {
        doc.push(Seq::empty())
    } else if 0 <= at_line < doc.len() {
        let k = clamp_index(at_grapheme, doc[at_line].len() as int);
        doc.update(at_line, doc[at_line].take(k)).insert(at_line + 1, doc[at_line].skip(k))
    } else {
        doc
    }
}

/// What deleting at a location does to the document: at or past the end
/// of a line that has a successor, the successor's content is merged
/// onto it and the successor removed; within a line's bounds, the one
/// fragment there is removed; otherwise nothing.
pub open spec fn spec_buffer_delete(
    doc: Seq<Seq<FragModel>>,
    at_line: int,
    at_grapheme: int,
) -> Seq<Seq<FragModel>> {
    if 0 <= at_line < doc.len() {
        if at_grapheme >= doc[at_line].len() && at_line + 1 < doc.len() {
            doc.update(at_line, doc[at_line] + doc[at_line + 1]).remove(at_line + 1)
        } else if 0 <= at_grapheme < doc[at_line].len() {
            doc.update(at_line, spec_delete(doc[at_line], at_grapheme))
        } else {
            doc
        }
    } else {
        doc
    }
}

/// Whether a deletion at this location actually changes the document.
pub open spec fn delete_mutates(doc: Seq<Seq<FragModel>>, at_line: int, at_grapheme: int) -> bool {
    0 <= at_line < doc.len() && ((at_grapheme >= doc[at_line].len() && at_line + 1 < doc.len())
        || 0 <= at_grapheme < doc[at_line].len())
}

/// The whole document: an ordered sequence of lines, a dirty flag that
/// records unsaved mutations, and the optional file path the document is
/// associated with.
pub struct Buffer {
    pub lines: Vec<Line>,
    pub dirty: bool,
    pub file_name: Option<String>,
}

impl View for Buffer {
    type V = Seq<Seq<FragModel>>;

    open spec fn view(&self) -> Seq<Seq<FragModel>> {
        doc_view(self.lines@)
    }
}

impl Default for Buffer {
    /// An empty document: no lines, not dirty, no associated path.
    fn default() -> (b: Buffer)
        ensures
            b@ == Seq::<Seq<FragModel>>::empty(),
            !b.dirty,
            b.file_name is None,
    {
        let b = Buffer { lines: Vec::new(), dirty: false, file_name: None };
        proof {
            assert(b@ =~= Seq::<Seq<FragModel>>::empty());
        }
        b
    }
}

impl Buffer {
    /// Whether the document has no lines at all (a state distinct from
    /// holding a single empty line).
    pub fn is_empty(&self) -> (r: bool)
        ensures
            r <==> self@.len() == 0,
    {
        self.lines.is_empty()
    }

    /// The number of lines in the document.
    pub fn height(&self) -> (h: usize)
        ensures
            h == self@.len(),
    {
        self.lines.len()
    }

    /// Builds a document from raw text records, one line per record,
    /// with the dirty flag clear.
    pub fn from_rows(file_name: Option<String>, rows: &Vec<String>) -> (b: Buffer)
        ensures
            b@.len() == rows@.len(),
            forall|i: int|
                0 <= i < rows@.len() ==> #[trigger] b@[i] == frags_of_graphemes(
                    grapheme_split(rows@[i]@),
                ),
            forall|i: int| 0 <= i < rows@.len() ==> raw_text(#[trigger] b@[i]) == rows@[i]@,
            !b.dirty,
            b.file_name == file_name,
    {
        let mut lines: Vec<Line> = Vec::new();
        let mut i: usize = 0;
        while i < rows.len()
            invariant
                i <= rows.len(),
                doc_view(lines@).len() == i,
                forall|j: int|
                    0 <= j < i ==> #[trigger] doc_view(lines@)[j] == frags_of_graphemes(
                        grapheme_split(rows@[j]@),
                    ),
                forall|j: int| 0 <= j < i ==> raw_text(#[trigger] doc_view(lines@)[j]) == rows@[j]@,
            decreases rows.len() - i,
        {
            let ghost pre = lines@;
            let line = Line::from(rows[i].as_str());
            lines.push(line);
            proof {
                assert(lines@ == pre.push(line));
                assert(forall|j: int|
                    0 <= j < i ==> #[trigger] doc_view(lines@)[j] == doc_view(pre)[j]);
                assert(doc_view(lines@)[i as int] == line@);
            }
            i = i + 1;
        }
        Buffer { lines, dirty: false, file_name }
    }

    /// Inserts a character at a location. One past the last line, a new
    /// one-fragment line is appended; within the document, the addressed
    /// line takes the character at the grapheme index. The dirty flag is
    /// set exactly when the document actually changes.
    pub fn insert_char(&mut self, character: char, at: Location)
        ensures
            final(self)@ == spec_buffer_insert_char(
                old(self)@,
                character,
                at.line_index as int,
                at.grapheme_index as int,
            ),
            final(self).dirty == (old(self).dirty || insert_mutates(
                old(self)@,
                at.line_index as int,
                at.grapheme_index as int,
            )),
            final(self).file_name == old(self).file_name,
    {
        if at.line_index > self.lines.len() {
            return ;
        }
        if at.line_index == self.lines.len() {
            let mut line = Line::default();
            line.insert_char(character, 0);
            let ghost pre = self.lines@;
            self.lines.push(line);
            self.dirty = true;
            proof {
                assert(line@ =~= seq![frag_of(seq![character])]);
                assert_seqs_equal!(
                    doc_view(self.lines@) == old(self)@.push(seq![frag_of(seq![character])])
                );
            }
        } else {
            let count = self.lines[at.line_index].grapheme_count();
            if at.grapheme_index <= count {
                let mut line = self.lines.remove(at.line_index);
                line.insert_char(character, at.grapheme_index);
                self.lines.insert(at.line_index, line);
                self.dirty = true;
            }
            proof {
                assert_seqs_equal!(
                    doc_view(self.lines@) == spec_buffer_insert_char(
                        old(self)@, character, at.line_index as int, at.grapheme_index as int)
                );
            }
        }
    }

    /// Inserts a line break at a location. One past the last line, a new
    /// empty line is appended; within the document, the addressed line
    /// is split at the grapheme index and the tail inserted immediately
    /// after it.
    pub fn insert_newline(&mut self, at: Location)
        ensures
            final(self)@ == spec_insert_newline(
                old(self)@,
                at.line_index as int,
                at.grapheme_index as int,
            ),
            final(self).dirty == (old(self).dirty || at.line_index as int <= old(self)@.len()),
            final(self).file_name == old(self).file_name,
    {
        if at.line_index > self.lines.len() {
            return ;
        }
        if at.line_index == self.lines.len() {
            self.lines.push(Line::default());
            self.dirty = true;
            proof {
                assert_seqs_equal!(
                    doc_view(self.lines@) == old(self)@.push(Seq::<FragModel>::empty())
                );
            }
        } else {
            let mut line = self.lines.remove(at.line_index);
            let tail = line.split(at.grapheme_index);
            self.lines.insert(at.line_index, line);
            self.lines.insert(at.line_index + 1, tail);
            self.dirty = true;
            proof {
                assert_seqs_equal!(
                    doc_view(self.lines@) == spec_insert_newline(
                        old(self)@, at.line_index as int, at.grapheme_index as int)
                );
            }
        }
    }

    /// Deletes at a location. At or past the end of a line that has a
    /// following line, the following line's content is merged onto it
    /// and the following line removed, reducing the height by exactly
    /// one; within the line's bounds, the one fragment there is removed;
    /// otherwise (such as the end of the last line) nothing changes. The
    /// dirty flag is set exactly when the document actually changes.
    pub fn delete(&mut self, at: Location)
        ensures
            final(self)@ == spec_buffer_delete(
                old(self)@,
                at.line_index as int,
                at.grapheme_index as int,
            ),
            final(self).dirty == (old(self).dirty || delete_mutates(
                old(self)@,
                at.line_index as int,
                at.grapheme_index as int,
            )),
            final(self).file_name == old(self).file_name,
            ((at.line_index as int) < old(self)@.len()
                && at.grapheme_index as int >= old(self)@[at.line_index as int].len()
                && at.line_index as int + 1 < old(self)@.len()) ==> {
                &&& final(self)@.len() == old(self)@.len() - 1
                &&& final(self)@[at.line_index as int]
                    == old(self)@[at.line_index as int] + old(self)@[at.line_index as int + 1]
            },
    {
        if at.line_index >= self.lines.len() {
            return ;
        }
        let count = self.lines[at.line_index].grapheme_count();
        if at.grapheme_index >= count && at.line_index + 1 < self.lines.len() {
            let next_line = self.lines.remove(at.line_index + 1);
            let mut line = self.lines.remove(at.line_index);
            line.append(next_line);
            self.lines.insert(at.line_index, line);
            self.dirty = true;
            proof {
                assert_seqs_equal!(
                    doc_view(self.lines@) == spec_buffer_delete(
                        old(self)@, at.line_index as int, at.grapheme_index as int)
                );
            }
        } else if at.grapheme_index < count {
            let mut line = self.lines.remove(at.line_index);
            line.delete(at.grapheme_index);
            self.lines.insert(at.line_index, line);
            self.dirty = true;
            proof {
                assert_seqs_equal!(
                    doc_view(self.lines@) == spec_buffer_delete(
                        old(self)@, at.line_index as int, at.grapheme_index as int)
                );
            }
        }
    }

    /// The records to persist, one per line, when the document has an
    /// associated path; `None` when it has none, in which case saving is
    /// a successful no-op and the document is left untouched.
    pub fn save_plan(&self) -> (r: Option<Vec<String>>)
        ensures
            match r {
                Some(rows) => {
                    &&& self.file_name is Some
                    &&& rows@.len() == self@.len()
                    &&& forall|i: int|
                        0 <= i < self@.len() ==> #[trigger] rows@[i]@ == raw_text(self@[i])
                },
                None => self.file_name is None,
            },
    {
        match &self.file_name {
            None => None,
            Some(_) => {
                let mut rows: Vec<String> = Vec::new();
                let mut i: usize = 0;
                while i < self.lines.len()
                    invariant
                        i <= self.lines.len(),
                        rows@.len() == i,
                        forall|j: int|
                            0 <= j < i ==> #[trigger] rows@[j]@ == raw_text(self@[j]),
                        self.file_name is Some,
                    decreases self.lines.len() - i,
                {
                    proof {
                        assert(self@[i as int] == self.lines@[i as int]@);
                    }
                    let row = self.lines[i].content();
                    rows.push(row);
                    i = i + 1;
                }
                Some(rows)
            },
        }
    }

    /// Records that every line has been persisted: clears the dirty
    /// flag and changes nothing else.
    pub fn mark_saved(&mut self)
        ensures
            !final(self).dirty,
            final(self).lines@ == old(self).lines@,
            final(self)@ == old(self)@,
            final(self).file_name == old(self).file_name,
    {
        self.dirty = false;
    }
}

} // verus!
