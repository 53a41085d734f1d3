use vedit::fragment::{GraphemeWidth, TextFragment};
use vedit::line::Line;

#[test]
fn fragment_width_zero_is_half_with_replacement() {
    // A combining acute accent alone measures zero columns wide.
    let f = TextFragment::new("\u{0301}".to_string());
    assert!(matches!(f.rendered_width, GraphemeWidth::Half));
    assert_eq!(f.replacement, Some('.'));
}

#[test]
fn fragment_width_one_is_half_without_replacement() {
    let f = TextFragment::new("a".to_string());
    assert!(matches!(f.rendered_width, GraphemeWidth::Half));
    assert_eq!(f.replacement, None);
}

#[test]
fn fragment_width_two_is_full() {
    let f = TextFragment::new("\u{597D}".to_string());
    assert!(matches!(f.rendered_width, GraphemeWidth::Full));
    assert_eq!(f.replacement, None);
}

#[test]
fn grapheme_width_saturating_add() {
    assert_eq!(GraphemeWidth::Half.saturating_add(3), 4);
    assert_eq!(GraphemeWidth::Full.saturating_add(3), 5);
    assert_eq!(GraphemeWidth::Full.saturating_add(usize::MAX - 1), usize::MAX);
    assert_eq!(GraphemeWidth::Full.saturating_add(usize::MAX), usize::MAX);
}

#[test]
fn line_from_counts_graphemes_not_chars() {
    // An 'e' followed by a combining accent is one user-perceived
    // character made of two code points.
    let line = Line::from("e\u{0301}x");
    assert_eq!(line.grapheme_count(), 2);
    assert_eq!(line.len(), 2);
}

#[test]
fn line_round_trips_visible_text() {
    let text = "h\u{00E9}llo, \u{4E16}\u{754C}!";
    let line = Line::from(text);
    assert_eq!(line.visible_string(), text);
    assert_eq!(line.content(), text);
}

#[test]
fn line_content_keeps_zero_width_clusters() {
    // The raw content keeps the combining mark; the visible text shows
    // the placeholder for the lone zero-width cluster.
    let line = Line::from("a\u{0301}");
    assert_eq!(line.grapheme_count(), 1);
    assert_eq!(line.content(), "a\u{0301}");
}

#[test]
fn insert_then_delete_restores_line() {
    for at in 0..6usize {
        let mut line = Line::from("abc");
        let before = line.content();
        line.insert_char('x', at);
        line.delete(at);
        assert_eq!(line.content(), before);
    }
}

#[test]
fn insert_char_past_end_is_noop() {
    let mut line = Line::from("abc");
    line.insert_char('x', 4);
    assert_eq!(line.content(), "abc");
}

#[test]
fn delete_past_end_is_noop() {
    let mut line = Line::from("abc");
    line.delete(3);
    assert_eq!(line.content(), "abc");
}

#[test]
fn split_then_append_restores_line() {
    let text = "ab\u{4E16}cd";
    let count = Line::from(text).grapheme_count();
    for k in 0..=count {
        let mut head = Line::from(text);
        let tail = head.split(k);
        head.append(tail);
        assert_eq!(head.content(), text);
    }
}

#[test]
fn split_at_zero_moves_everything_to_tail() {
    let mut head = Line::from("abc");
    let tail = head.split(0);
    assert_eq!(head.content(), "");
    assert_eq!(tail.content(), "abc");
}

#[test]
fn split_past_end_leaves_empty_tail() {
    let mut head = Line::from("abc");
    let tail = head.split(9);
    assert_eq!(head.content(), "abc");
    assert_eq!(tail.content(), "");
}

#[test]
fn width_until_counts_columns() {
    // "d" and an accented "e" are one column each; the ideograph is two.
    let line = Line::from("d\u{00E9}\u{597D}x");
    assert_eq!(line.width_until(0), 0);
    assert_eq!(line.width_until(1), 1);
    assert_eq!(line.width_until(2), 2);
    assert_eq!(line.width_until(3), 4);
    assert_eq!(line.width_until(4), 5);
    assert_eq!(line.width_until(9), 5);
}

#[test]
fn visible_graphemes_plain_window() {
    let line = Line::from("abcdef");
    assert_eq!(line.get_visible_graphemes(0..6), "abcdef");
    assert_eq!(line.get_visible_graphemes(1..4), "bcd");
    assert_eq!(line.get_visible_graphemes(4..99), "ef");
}

#[test]
fn visible_graphemes_empty_window() {
    let line = Line::from("abcdef");
    assert_eq!(line.get_visible_graphemes(3..3), "");
    assert_eq!(line.get_visible_graphemes(5..2), "");
}

#[test]
fn visible_graphemes_straddling_fragment_is_ellipsis() {
    // Two double-width ideographs: columns [0,2) and [2,4).
    let line = Line::from("\u{597D}\u{597D}");
    assert_eq!(line.get_visible_graphemes(0..4), "\u{597D}\u{597D}");
    assert_eq!(line.get_visible_graphemes(0..2), "\u{597D}");
    // A window cutting through both shows one ellipsis for each.
    assert_eq!(line.get_visible_graphemes(1..3), "\u{22EF}\u{22EF}");
    // A window ending mid-fragment clips it to an ellipsis.
    assert_eq!(line.get_visible_graphemes(0..3), "\u{597D}\u{22EF}");
}

#[test]
fn visible_graphemes_shows_replacement() {
    // A combining mark with nothing before it is a lone zero-width
    // cluster: it occupies one column and shows '.'.
    let line = Line::from("\u{0301}ab");
    assert_eq!(line.grapheme_count(), 3);
    assert_eq!(line.get_visible_graphemes(0..3), ".ab");
}

#[test]
fn get_returns_raw_range_text() {
    let line = Line::from("abcde");
    assert_eq!(line.get(1..3), "bc");
    assert_eq!(line.get(0..99), "abcde");
    assert_eq!(line.get(7..9), "");
}
