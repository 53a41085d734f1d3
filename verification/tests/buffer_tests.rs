use vedit::buffer::Buffer;
use vedit::geometry::Location;

fn buffer_of(rows: &[&str]) -> Buffer {
    let owned: Vec<String> = rows.iter().map(|r| r.to_string()).collect();
    Buffer::from_rows(None, &owned)
}

fn contents(b: &Buffer) -> Vec<String> {
    b.lines.iter().map(|l| l.content()).collect()
}

#[test]
fn from_rows_builds_clean_document() {
    let b = buffer_of(&["abc", "d\u{00E9}"]);
    assert_eq!(b.height(), 2);
    assert!(!b.is_empty());
    assert!(!b.dirty);
    assert_eq!(contents(&b), vec!["abc".to_string(), "d\u{00E9}".to_string()]);
}

#[test]
fn empty_document_is_distinct_from_one_empty_line() {
    let none = buffer_of(&[]);
    let one = buffer_of(&[""]);
    assert!(none.is_empty());
    assert_eq!(none.height(), 0);
    assert!(!one.is_empty());
    assert_eq!(one.height(), 1);
}

#[test]
fn insert_char_at_origin() {
    let mut b = buffer_of(&["abc"]);
    b.insert_char('x', Location { grapheme_index: 0, line_index: 0 });
    assert_eq!(contents(&b), vec!["xabc".to_string()]);
    assert!(b.dirty);
}

#[test]
fn insert_char_one_past_last_line_appends_line() {
    let mut b = buffer_of(&["abc"]);
    b.insert_char('z', Location { grapheme_index: 0, line_index: 1 });
    assert_eq!(contents(&b), vec!["abc".to_string(), "z".to_string()]);
    assert!(b.dirty);
}

#[test]
fn insert_char_beyond_document_is_noop() {
    let mut b = buffer_of(&["abc"]);
    b.insert_char('z', Location { grapheme_index: 0, line_index: 5 });
    assert_eq!(contents(&b), vec!["abc".to_string()]);
    assert!(!b.dirty);
}

#[test]
fn insert_newline_splits_line() {
    let mut b = buffer_of(&["abcd"]);
    b.insert_newline(Location { grapheme_index: 2, line_index: 0 });
    assert_eq!(contents(&b), vec!["ab".to_string(), "cd".to_string()]);
    assert!(b.dirty);
}

#[test]
fn insert_newline_at_document_end_appends_empty_line() {
    let mut b = buffer_of(&["abcd"]);
    b.insert_newline(Location { grapheme_index: 0, line_index: 1 });
    assert_eq!(contents(&b), vec!["abcd".to_string(), "".to_string()]);
    assert!(b.dirty);
}

#[test]
fn delete_at_line_end_merges_next_line() {
    let mut b = buffer_of(&["abc", "def", "ghi"]);
    b.delete(Location { grapheme_index: 3, line_index: 0 });
    assert_eq!(b.height(), 2);
    assert_eq!(contents(&b), vec!["abcdef".to_string(), "ghi".to_string()]);
    assert!(b.dirty);
}

#[test]
fn delete_within_line_removes_one_grapheme() {
    let mut b = buffer_of(&["abc"]);
    b.delete(Location { grapheme_index: 1, line_index: 0 });
    assert_eq!(contents(&b), vec!["ac".to_string()]);
    assert!(b.dirty);
}

#[test]
fn delete_at_end_of_last_line_is_noop() {
    let mut b = buffer_of(&["abc"]);
    b.delete(Location { grapheme_index: 3, line_index: 0 });
    assert_eq!(contents(&b), vec!["abc".to_string()]);
    assert!(!b.dirty);
}

#[test]
fn save_with_no_path_is_noop_success() {
    let mut b = buffer_of(&["abc"]);
    b.insert_char('x', Location { grapheme_index: 0, line_index: 0 });
    assert!(b.dirty);
    // No associated path: nothing to write, and the document stays as
    // it was, dirty flag included.
    assert!(b.save_plan().is_none());
    assert!(b.dirty);
    assert_eq!(contents(&b), vec!["xabc".to_string()]);
}

#[test]
fn save_with_path_yields_one_record_per_line() {
    let rows: Vec<String> = vec!["abc".to_string(), "d\u{00E9}".to_string()];
    let mut b = Buffer::from_rows(Some("notes.txt".to_string()), &rows);
    b.insert_char('x', Location { grapheme_index: 0, line_index: 0 });
    let plan = b.save_plan();
    assert_eq!(plan, Some(vec!["xabc".to_string(), "d\u{00E9}".to_string()]));
    b.mark_saved();
    assert!(!b.dirty);
    assert_eq!(b.file_name, Some("notes.txt".to_string()));
}
