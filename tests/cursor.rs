use hello_tui::cursor::{CursorController, CursorPosition};
use hello_tui::cursor_utils::{
    calculate_preferred_column, find_next_word_boundary, find_prev_word_boundary, is_at_document_end,
    is_at_document_start, is_at_line_end, is_at_line_start,
};
use hello_tui::keys::Direction;

fn lines(v: &[&str]) -> Vec<String> {
    v.iter().map(|s| s.to_string()).collect()
}

#[test]
fn validate_is_idempotent() {
    let buf = lines(&["abc", "de"]);
    let mut c = CursorController::with_position(7, 9);
    assert!(c.validate_position(&buf));
    assert_eq!((c.row(), c.col()), (1, 2));
    assert!(!c.validate_position(&buf));
    assert_eq!((c.row(), c.col()), (1, 2));
}

#[test]
fn validate_clamps_column_only() {
    let buf = lines(&["abcdef", "xy"]);
    let mut c = CursorController::with_position(1, 5);
    assert!(c.validate_position(&buf));
    assert_eq!(*c.position(), CursorPosition::new(1, 2));
    let mut empty = CursorController::with_position(3, 4);
    empty.validate_position(&[]);
    assert_eq!(*empty.position(), CursorPosition::new(0, 4));
}

#[test]
fn move_up_clamps_column_to_line_above() {
    let buf = lines(&["ab", "abcdef"]);
    let mut c = CursorController::with_position(1, 5);
    assert!(c.move_cursor(Direction::Up, &buf));
    assert_eq!((c.row(), c.col()), (0, 2));
    let mut d = CursorController::with_position(1, 1);
    d.move_cursor(Direction::Up, &buf);
    assert_eq!((d.row(), d.col()), (0, 1));
}

#[test]
fn move_left_and_right_wrap_lines() {
    let buf = lines(&["ab", "cd"]);
    let mut c = CursorController::with_position(1, 0);
    assert!(c.move_cursor(Direction::Left, &buf));
    assert_eq!((c.row(), c.col()), (0, 2));
    assert!(c.move_cursor(Direction::Right, &buf));
    assert_eq!((c.row(), c.col()), (1, 0));
    let mut end = CursorController::with_position(1, 2);
    assert!(!end.move_cursor(Direction::Right, &buf));
    assert!(!end.move_cursor(Direction::Down, &buf));
    let mut start = CursorController::new();
    assert!(!start.move_cursor(Direction::Left, &buf));
    assert!(!start.move_cursor(Direction::Up, &buf));
}

#[test]
fn moves_count_characters_not_bytes() {
    let buf = lines(&["héllo", "x"]);
    let mut c = CursorController::with_position(1, 0);
    c.move_cursor(Direction::Left, &buf);
    assert_eq!((c.row(), c.col()), (0, 5));
    assert!(c.move_to_line_end(&buf) == false);
}

#[test]
fn move_to_position_uses_scroll_offset() {
    let buf = lines(&["a", "bb", "ccc", "dddd"]);
    let mut c = CursorController::new();
    assert!(c.move_to_position(1, 10, 2, &buf));
    assert_eq!((c.row(), c.col()), (3, 4));
    assert!(c.move_to_position(5, 1, 2, &buf));
    assert_eq!((c.row(), c.col()), (3, 1));
}

#[test]
fn click_below_the_document_clamps_to_last_line() {
    let buf = lines(&["first", "second", "xy"]);
    let mut c = CursorController::new();
    assert!(c.move_to_position(7, 9, 0, &buf));
    assert_eq!((c.row(), c.col()), (2, 2));
    let mut d = CursorController::with_position(1, 3);
    d.move_to_position(usize::MAX, 1, usize::MAX, &buf);
    assert_eq!((d.row(), d.col()), (2, 1));
    let mut e = CursorController::with_position(4, 4);
    assert!(!e.move_to_position(0, 0, 0, &[]));
    assert_eq!((e.row(), e.col()), (4, 4));
}

#[test]
fn line_and_document_jumps() {
    let buf = lines(&["abc", "de"]);
    let mut c = CursorController::with_position(0, 1);
    assert!(c.move_to_line_end(&buf));
    assert_eq!(c.col(), 3);
    assert!(c.move_to_line_start());
    assert!(!c.move_to_line_start());
    assert!(c.move_to_document_end(&buf));
    assert_eq!((c.row(), c.col()), (1, 2));
    assert!(c.move_to_document_start());
    assert_eq!((c.row(), c.col()), (0, 0));
    c.set_position(4, 4);
    assert_eq!(c.viewport_position(3), CursorPosition::new(1, 4));
    assert_eq!(c.position_for_mouse(6), (0, 4));
}

#[test]
fn visibility_in_viewport() {
    let c = CursorController::with_position(10, 0);
    assert!(c.is_visible_in_viewport(5, 6));
    assert!(!c.is_visible_in_viewport(5, 5));
    assert!(!c.is_visible_in_viewport(11, 5));
}

#[test]
fn scroll_adjustment_stays_in_bounds() {
    assert_eq!(CursorController::with_position(2, 0).adjust_scroll_for_visibility(5, 10, 100), 2);
    assert_eq!(CursorController::with_position(30, 0).adjust_scroll_for_visibility(5, 10, 100), 21);
    assert_eq!(CursorController::with_position(8, 0).adjust_scroll_for_visibility(5, 10, 100), 5);
    assert_eq!(CursorController::with_position(99, 0).adjust_scroll_for_visibility(0, 10, 100), 90);
    assert_eq!(CursorController::with_position(3, 0).adjust_scroll_for_visibility(7, 10, 5), 0);
    assert_eq!(CursorController::with_position(4, 0).adjust_scroll_for_visibility(0, 0, 3), 3);
    for total in 0..30usize {
        for row in 0..30usize {
            for offset in 0..30usize {
                let r = CursorController::with_position(row, 0).adjust_scroll_for_visibility(offset, 7, total);
                assert!(r <= total.saturating_sub(7));
            }
        }
    }
}

#[test]
fn preferred_column() {
    assert_eq!(calculate_preferred_column(10, "héllo"), 5);
    assert_eq!(calculate_preferred_column(2, "hello"), 2);
}

#[test]
fn next_word_boundary() {
    assert_eq!(find_next_word_boundary("hello world  test", 0), 6);
    assert_eq!(find_next_word_boundary("hello world  test", 6), 13);
    assert_eq!(find_next_word_boundary("hello world  test", 13), 17);
    assert_eq!(find_next_word_boundary("hello", 9), 5);
    assert_eq!(find_next_word_boundary("a\tb", 1), 2);
}

#[test]
fn prev_word_boundary() {
    assert_eq!(find_prev_word_boundary("hello world test", 16), 12);
    assert_eq!(find_prev_word_boundary("hello world test", 12), 6);
    assert_eq!(find_prev_word_boundary("hello world", 3), 0);
    assert_eq!(find_prev_word_boundary(" ab", 3), 0);
    assert_eq!(find_prev_word_boundary("", 4), 0);
    assert_eq!(find_prev_word_boundary("abc", 0), 0);
}

#[test]
fn position_predicates() {
    let buf = lines(&["abc", "de"]);
    assert!(is_at_line_start(&CursorPosition::new(1, 0)));
    assert!(!is_at_line_start(&CursorPosition::new(1, 1)));
    assert!(is_at_line_end(&CursorPosition::new(0, 3), &buf));
    assert!(!is_at_line_end(&CursorPosition::new(2, 0), &buf));
    assert!(is_at_document_start(&CursorPosition::zero()));
    assert!(is_at_document_end(&CursorPosition::new(1, 2), &buf));
    assert!(!is_at_document_end(&CursorPosition::new(0, 3), &buf));
    assert!(is_at_document_end(&CursorPosition::zero(), &[]));
}

#[test]
fn moving_from_outside_the_buffer_clamps_first() {
    let buf = lines(&["ab", "cd"]);
    let mut c = CursorController::with_position(9, 9);
    assert!(c.move_cursor(Direction::Up, &buf));
    assert_eq!((c.row(), c.col()), (0, 2));
    let mut d = CursorController::with_position(9, 9);
    d.move_cursor(Direction::Right, &buf);
    assert_eq!((d.row(), d.col()), (1, 2));
    let mut e = CursorController::with_position(3, 1);
    assert!(!e.move_cursor(Direction::Left, &[]));
    assert_eq!((e.row(), e.col()), (3, 1));
}

#[test]
fn whitespace_set_matches_std_on_every_char() {
    for u in 0..=0x10FFFFu32 {
        if let Some(c) = char::from_u32(u) {
            assert_eq!(hello_tui::text::is_whitespace(c), c.is_whitespace(), "U+{:04X}", u);
        }
    }
}
