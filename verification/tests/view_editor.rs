use vedit::command::{
    ClassifyError, Direction, EditorCommand, InputEvent, InsertCommand, Key, Mode, Modifiers,
    NormalCommand,
};
use vedit::editor::Editor;
use vedit::geometry::Size;
use vedit::view::EditorView;

fn plain() -> Modifiers {
    Modifiers { control: false, shift: false, alt: false, other: false }
}

fn ctrl() -> Modifiers {
    Modifiers { control: true, shift: false, alt: false, other: false }
}

fn key(k: Key) -> InputEvent {
    InputEvent::Key(k, plain())
}

fn view_of(rows: &[&str], size: Size) -> EditorView {
    let owned: Vec<String> = rows.iter().map(|r| r.to_string()).collect();
    let mut v = EditorView::new(size);
    v.load(None, &owned);
    v
}

fn assert_cursor_valid(v: &EditorView) {
    let li = v.text_location.line_index;
    assert!(li <= v.buffer.height());
    let count = if li < v.buffer.height() { v.buffer.lines[li].grapheme_count() } else { 0 };
    assert!(v.text_location.grapheme_index <= count);
}

fn assert_cursor_visible(v: &EditorView) {
    let row = v.text_location.line_index;
    let col = if v.text_location.line_index < v.buffer.height() {
        v.buffer.lines[v.text_location.line_index].width_until(v.text_location.grapheme_index)
    } else {
        0
    };
    assert!(v.scroll_offset.row <= row && row < v.scroll_offset.row + v.size.height);
    assert!(v.scroll_offset.col <= col && col < v.scroll_offset.col + v.size.width);
}

#[test]
fn classify_normal_mode_keys() {
    let m = Mode::Normal;
    assert_eq!(
        EditorCommand::try_from(key(Key::Char('i')), &m),
        Ok(EditorCommand::Change(Mode::Insert))
    );
    assert_eq!(
        EditorCommand::try_from(key(Key::Char('v')), &m),
        Ok(EditorCommand::Change(Mode::Visual))
    );
    assert_eq!(
        EditorCommand::try_from(InputEvent::Key(Key::Char('q'), ctrl()), &m),
        Ok(EditorCommand::Quit)
    );
    assert_eq!(
        EditorCommand::try_from(key(Key::Char('q')), &m),
        Err(ClassifyError::Unsupported)
    );
    assert_eq!(
        EditorCommand::try_from(key(Key::Up), &m),
        Ok(EditorCommand::Normal(NormalCommand::Move(Direction::Up)))
    );
    assert_eq!(
        EditorCommand::try_from(key(Key::Char('j')), &m),
        Ok(EditorCommand::Normal(NormalCommand::Move(Direction::Down)))
    );
    assert_eq!(
        EditorCommand::try_from(key(Key::Char('h')), &m),
        Ok(EditorCommand::Normal(NormalCommand::Move(Direction::Left)))
    );
    assert_eq!(
        EditorCommand::try_from(key(Key::Char('l')), &m),
        Ok(EditorCommand::Normal(NormalCommand::Move(Direction::Right)))
    );
    assert_eq!(
        EditorCommand::try_from(key(Key::PageUp), &m),
        Ok(EditorCommand::Normal(NormalCommand::Move(Direction::PageUp)))
    );
    assert_eq!(
        EditorCommand::try_from(key(Key::Home), &m),
        Ok(EditorCommand::Normal(NormalCommand::Move(Direction::Home)))
    );
    assert_eq!(
        EditorCommand::try_from(key(Key::End), &m),
        Ok(EditorCommand::Normal(NormalCommand::Move(Direction::End)))
    );
    assert_eq!(EditorCommand::try_from(key(Key::Other), &m), Err(ClassifyError::Unsupported));
}

#[test]
fn classify_insert_mode_keys() {
    let m = Mode::Insert;
    assert_eq!(
        EditorCommand::try_from(key(Key::Char('a')), &m),
        Ok(EditorCommand::Insert(InsertCommand::Char('a')))
    );
    let shift = Modifiers { control: false, shift: true, alt: false, other: false };
    assert_eq!(
        EditorCommand::try_from(InputEvent::Key(Key::Char('A'), shift), &m),
        Ok(EditorCommand::Insert(InsertCommand::Char('A')))
    );
    // Control-modified characters mean nothing in insert mode.
    assert_eq!(
        EditorCommand::try_from(InputEvent::Key(Key::Char('q'), ctrl()), &m),
        Err(ClassifyError::Unsupported)
    );
    assert_eq!(EditorCommand::try_from(key(Key::Up), &m), Err(ClassifyError::Unsupported));
}

#[test]
fn classify_global_events() {
    // Resize and the cancel key are recognized in every mode.
    for m in [Mode::Normal, Mode::Insert, Mode::Visual] {
        assert_eq!(
            EditorCommand::try_from(InputEvent::Resize(80, 24), &m),
            Ok(EditorCommand::Resize(Size { height: 24, width: 80 }))
        );
        assert_eq!(EditorCommand::try_from(key(Key::Esc), &m), Ok(EditorCommand::Esc));
    }
}

#[test]
fn cursor_movement_stays_in_bounds() {
    let mut v = view_of(&["abc", "d\u{00E9}"], Size { height: 10, width: 10 });
    let moves = [
        Direction::End,
        Direction::Down,
        Direction::Down,
        Direction::Down,
        Direction::Right,
        Direction::Up,
        Direction::End,
        Direction::Left,
        Direction::PageDown,
        Direction::PageUp,
        Direction::Home,
    ];
    for d in moves {
        v.handle_command(EditorCommand::Normal(NormalCommand::Move(d)));
        assert_cursor_valid(&v);
    }
}

#[test]
fn moving_onto_shorter_line_snaps_grapheme_index() {
    let mut v = view_of(&["abcdef", "ab"], Size { height: 10, width: 10 });
    v.handle_command(EditorCommand::Normal(NormalCommand::Move(Direction::End)));
    assert_eq!(v.text_location.grapheme_index, 6);
    v.handle_command(EditorCommand::Normal(NormalCommand::Move(Direction::Down)));
    assert_eq!(v.text_location.line_index, 1);
    assert_eq!(v.text_location.grapheme_index, 2);
}

#[test]
fn horizontal_movement_does_not_wrap_lines() {
    let mut v = view_of(&["ab", "cd"], Size { height: 10, width: 10 });
    v.handle_command(EditorCommand::Normal(NormalCommand::Move(Direction::Left)));
    assert_eq!(v.text_location.line_index, 0);
    assert_eq!(v.text_location.grapheme_index, 0);
    v.handle_command(EditorCommand::Normal(NormalCommand::Move(Direction::End)));
    v.handle_command(EditorCommand::Normal(NormalCommand::Move(Direction::Right)));
    assert_eq!(v.text_location.line_index, 0);
    assert_eq!(v.text_location.grapheme_index, 2);
}

#[test]
fn scrolling_keeps_cursor_inside_viewport() {
    let rows: Vec<&str> = vec!["0123456789"; 30];
    let mut v = view_of(&rows, Size { height: 5, width: 4 });
    for _ in 0..12 {
        v.handle_command(EditorCommand::Normal(NormalCommand::Move(Direction::Down)));
        assert_cursor_visible(&v);
    }
    assert_eq!(v.scroll_offset.row, 8);
    v.handle_command(EditorCommand::Normal(NormalCommand::Move(Direction::End)));
    assert_cursor_visible(&v);
    assert_eq!(v.scroll_offset.col, 7);
    v.handle_command(EditorCommand::Normal(NormalCommand::Move(Direction::Home)));
    assert_cursor_visible(&v);
    assert_eq!(v.scroll_offset.col, 0);
    v.handle_command(EditorCommand::Normal(NormalCommand::Move(Direction::PageUp)));
    assert_cursor_visible(&v);
}

#[test]
fn caret_position_subtracts_scroll() {
    // Line 1 is "d" plus an accented "e": the accented "e" is a single
    // grapheme of width one, so two graphemes in cost two columns.
    let mut v = view_of(&["abc", "d\u{00E9}"], Size { height: 10, width: 10 });
    v.handle_command(EditorCommand::Normal(NormalCommand::Move(Direction::Down)));
    v.handle_command(EditorCommand::Normal(NormalCommand::Move(Direction::End)));
    assert_eq!(v.text_location.line_index, 1);
    assert_eq!(v.text_location.grapheme_index, 2);
    assert_eq!(v.buffer.lines[1].width_until(2), 2);
    let caret = v.caret_position();
    assert_eq!(caret.row, 1);
    assert_eq!(caret.col, 2);
}

#[test]
fn render_empty_document_shows_centered_banner() {
    let mut v = EditorView::new(Size { height: 24, width: 80 });
    let rows = v.render();
    assert_eq!(rows.len(), 24);
    let banner = "vedit editor -- version 0.1.0";
    let padding = " ".repeat((80 - banner.len() - 1) / 2);
    let expected = format!("~{padding}{banner}");
    for (i, row) in rows.iter().enumerate() {
        if i == 8 {
            assert_eq!(row, &expected);
        } else {
            assert_eq!(row, "~");
        }
    }
}

#[test]
fn render_clips_to_the_scrolled_window() {
    let rows: Vec<&str> = vec!["abcdef", "ghijkl", "mnopqr"];
    let mut v = view_of(&rows, Size { height: 2, width: 3 });
    // Walk the cursor to line 2, column 4: the window follows it.
    for _ in 0..2 {
        v.handle_command(EditorCommand::Normal(NormalCommand::Move(Direction::Down)));
    }
    for _ in 0..4 {
        v.handle_command(EditorCommand::Normal(NormalCommand::Move(Direction::Right)));
    }
    // The cursor's column is 4; the window scrolled to columns [2, 5).
    let drawn = v.render();
    assert_eq!(drawn.len(), 2);
    assert_eq!(drawn[0], "ijk");
    assert_eq!(drawn[1], "opq");
}

#[test]
fn render_only_when_due() {
    let mut v = EditorView::new(Size { height: 4, width: 10 });
    let first = v.render();
    assert_eq!(first.len(), 4);
    // The redraw flag was cleared; nothing new to draw.
    let second = v.render();
    assert!(second.is_empty());
}

#[test]
fn welcome_message_widths() {
    assert_eq!(EditorView::build_welcome_message(0), " ");
    assert_eq!(EditorView::build_welcome_message(10), "~");
    assert_eq!(EditorView::build_welcome_message(29), "~");
    assert_eq!(EditorView::build_welcome_message(30), "~vedit editor -- version 0.1.0");
    assert_eq!(EditorView::build_welcome_message(34), "~  vedit editor -- version 0.1.0");
}

#[test]
fn editor_quits_only_from_normal_mode() {
    let mut e = Editor::new(Size { height: 24, width: 80 });
    assert!(matches!(e.mode, Mode::Normal));
    e.evaluate_event(key(Key::Char('i')));
    assert!(matches!(e.mode, Mode::Insert));
    // In insert mode, control-q is not a quit.
    e.evaluate_event(InputEvent::Key(Key::Char('q'), ctrl()));
    assert!(!e.should_quit);
    e.evaluate_event(key(Key::Esc));
    assert!(matches!(e.mode, Mode::Normal));
    e.evaluate_event(InputEvent::Key(Key::Char('q'), ctrl()));
    assert!(e.should_quit);
}

#[test]
fn editor_inserts_typed_characters() {
    let mut e = Editor::new(Size { height: 24, width: 80 });
    e.evaluate_event(key(Key::Char('i')));
    e.evaluate_event(key(Key::Char('h')));
    e.evaluate_event(key(Key::Char('i')));
    assert_eq!(e.view.buffer.height(), 1);
    assert_eq!(e.view.buffer.lines[0].content(), "hi");
    assert!(e.view.buffer.dirty);
    assert_eq!(e.view.text_location.grapheme_index, 2);
}

#[test]
fn editor_ignores_unrecognized_events() {
    let mut e = Editor::new(Size { height: 24, width: 80 });
    e.evaluate_event(key(Key::Char('z')));
    assert!(!e.should_quit);
    assert!(matches!(e.mode, Mode::Normal));
    assert_eq!(e.view.buffer.height(), 0);
}

#[test]
fn editor_resize_reserves_two_bar_rows() {
    let mut e = Editor::new(Size { height: 24, width: 80 });
    assert_eq!(e.view.size, Size { height: 22, width: 80 });
    e.evaluate_event(InputEvent::Resize(60, 20));
    assert_eq!(e.terminal_size, Size { height: 20, width: 60 });
    assert_eq!(e.view.size, Size { height: 18, width: 60 });
    e.evaluate_event(InputEvent::Resize(40, 1));
    assert_eq!(e.view.size, Size { height: 0, width: 40 });
}

#[test]
fn visual_mode_recognizes_nothing_of_its_own() {
    let mut e = Editor::new(Size { height: 24, width: 80 });
    e.evaluate_event(key(Key::Char('v')));
    assert!(matches!(e.mode, Mode::Visual));
    e.evaluate_event(key(Key::Char('x')));
    assert!(matches!(e.mode, Mode::Visual));
    assert_eq!(e.view.buffer.height(), 0);
    assert!(!e.should_quit);
}
