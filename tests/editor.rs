use hello_tui::editor::{Editor, EditorNotice};
use hello_tui::keys::{Direction, Key, KeyAction, KeyHandler, KeyPress};
use hello_tui::mouse::{MouseAction, TextSelection};

fn editor_with(v: &[&str]) -> Editor {
    Editor::from_lines(v.iter().map(|s| s.to_string()).collect())
}

fn text(e: &Editor) -> Vec<String> {
    e.lines.clone()
}

fn plain(key: Key) -> KeyPress {
    KeyPress { key, control: false, shift: false }
}

fn ctrl(c: char) -> KeyPress {
    KeyPress { key: Key::Char(c), control: true, shift: false }
}

#[test]
fn new_editor_has_one_empty_line() {
    let e = Editor::new();
    assert_eq!(text(&e), vec![String::new()]);
    assert_eq!((e.cursor.row(), e.cursor.col()), (0, 0));
    assert!(!e.modified);
    let f = Editor::from_lines(Vec::new());
    assert_eq!(text(&f), vec![String::new()]);
}

#[test]
fn insert_char_advances_cursor() {
    let mut e = editor_with(&["hllo"]);
    e.cursor.set_position(0, 1);
    e.insert_char('é');
    assert_eq!(text(&e), vec!["héllo".to_string()]);
    assert_eq!(e.cursor.col(), 2);
    assert!(e.modified);
    e.insert_char('!');
    assert_eq!(text(&e), vec!["hé!llo".to_string()]);
}

#[test]
fn newline_splits_line_at_character_column() {
    let mut e = editor_with(&["añb", "z"]);
    e.cursor.set_position(0, 2);
    e.insert_newline();
    assert_eq!(text(&e), vec!["añ".to_string(), "b".to_string(), "z".to_string()]);
    assert_eq!((e.cursor.row(), e.cursor.col()), (1, 0));
}

#[test]
fn backspace_deletes_or_joins() {
    let mut e = editor_with(&["ab", "cd"]);
    e.cursor.set_position(1, 1);
    e.delete_backward();
    assert_eq!(text(&e), vec!["ab".to_string(), "d".to_string()]);
    assert_eq!((e.cursor.row(), e.cursor.col()), (1, 0));
    e.delete_backward();
    assert_eq!(text(&e), vec!["abd".to_string()]);
    assert_eq!((e.cursor.row(), e.cursor.col()), (0, 2));
    e.cursor.set_position(0, 0);
    e.modified = false;
    e.delete_backward();
    assert_eq!(text(&e), vec!["abd".to_string()]);
    assert!(!e.modified);
}

#[test]
fn delete_forward_deletes_or_joins() {
    let mut e = editor_with(&["ab", "cd"]);
    e.cursor.set_position(0, 1);
    e.delete_forward();
    assert_eq!(text(&e), vec!["a".to_string(), "cd".to_string()]);
    e.delete_forward();
    assert_eq!(text(&e), vec!["acd".to_string()]);
    assert_eq!((e.cursor.row(), e.cursor.col()), (0, 1));
    e.cursor.set_position(0, 3);
    e.delete_forward();
    assert_eq!(text(&e), vec!["acd".to_string()]);
}

#[test]
fn delete_multi_row_selection() {
    let mut e = editor_with(&["first line", "second line", "third line", "last"]);
    e.selection = Some(TextSelection::new(0, 6, 2, 5));
    e.delete_selected_text();
    assert_eq!(text(&e), vec!["first  line".to_string(), "last".to_string()]);
    assert_eq!((e.cursor.row(), e.cursor.col()), (0, 6));
    assert!(e.selection.is_none());
    assert!(e.modified);
}

#[test]
fn delete_single_row_selection_and_clamped_selection() {
    let mut e = editor_with(&["hello world"]);
    e.selection = Some(TextSelection::new(0, 2, 0, 7));
    e.delete_selected_text();
    assert_eq!(text(&e), vec!["heorld".to_string()]);
    let mut f = editor_with(&["abc", "def"]);
    f.selection = Some(TextSelection::new(1, 1, 9, 9));
    f.delete_selected_text();
    assert_eq!(text(&f), vec!["abc".to_string(), "d".to_string()]);
    assert_eq!((f.cursor.row(), f.cursor.col()), (1, 1));
}

#[test]
fn duplicate_and_delete_lines() {
    let mut e = editor_with(&["a", "b"]);
    e.cursor.set_position(1, 1);
    e.duplicate_line();
    assert_eq!(text(&e), vec!["a".to_string(), "b".to_string(), "b".to_string()]);
    assert_eq!((e.cursor.row(), e.cursor.col()), (2, 1));
    e.delete_line();
    assert_eq!(text(&e), vec!["a".to_string(), "b".to_string()]);
    assert_eq!((e.cursor.row(), e.cursor.col()), (1, 0));
    e.delete_line();
    e.delete_line();
    assert_eq!(text(&e), vec![String::new()]);
}

#[test]
fn word_selection_uses_scroll_offset() {
    let mut e = editor_with(&["zero", "one two", "three"]);
    e.scroll_offset = 1;
    e.select_word_at_position(0, 5);
    assert_eq!(e.selection, Some(TextSelection::new(1, 4, 1, 7)));
    assert_eq!((e.cursor.row(), e.cursor.col()), (1, 7));
    e.select_word_at_position(5, 0);
    assert_eq!(e.selection, Some(TextSelection::new(2, 0, 2, 5)));
    assert_eq!((e.cursor.row(), e.cursor.col()), (2, 5));
}

#[test]
fn scrolling_is_clamped() {
    let mut e = editor_with(&["1", "2", "3", "4", "5", "6", "7", "8"]);
    e.scroll_down(4);
    assert_eq!(e.scroll_offset, 3);
    e.scroll_down(4);
    assert_eq!(e.scroll_offset, 4);
    e.scroll_down(4);
    assert_eq!(e.scroll_offset, 4);
    e.scroll_up(4);
    assert_eq!(e.scroll_offset, 1);
    e.scroll_up(4);
    assert_eq!(e.scroll_offset, 0);
    e.cursor.set_position(7, 0);
    e.keep_cursor_visible(3);
    assert_eq!(e.scroll_offset, 5);
}

#[test]
fn scrolling_clamps_an_offset_left_too_large() {
    let mut e = editor_with(&["1", "2", "3", "4", "5", "6"]);
    e.scroll_offset = 10;
    e.scroll_down(4);
    assert_eq!(e.scroll_offset, 2);
    e.scroll_offset = 10;
    e.scroll_up(4);
    assert_eq!(e.scroll_offset, 2);
    e.scroll_offset = 10;
    e.scroll_up(2);
    assert_eq!(e.scroll_offset, 4);
}

#[test]
fn click_below_the_document_lands_on_last_line() {
    let mut e = editor_with(&["zero", "one", "two"]);
    assert_eq!(
        e.handle_mouse_action(MouseAction::Click { row: 9, col: 1 }, 5),
        EditorNotice::CursorMoved { row: 9, col: 1 }
    );
    assert_eq!((e.cursor.row(), e.cursor.col()), (2, 1));
}

#[test]
fn typing_keys() {
    let mut e = Editor::new();
    assert_eq!(e.handle_key_event(plain(Key::Char('h'))), EditorNotice::Edited);
    assert_eq!(e.handle_key_event(plain(Key::Char('i'))), EditorNotice::Edited);
    assert_eq!(e.handle_key_event(plain(Key::Enter)), EditorNotice::Edited);
    assert_eq!(e.handle_key_event(plain(Key::Char('x'))), EditorNotice::Edited);
    assert_eq!(text(&e), vec!["hi".to_string(), "x".to_string()]);
    assert_eq!(e.handle_key_event(plain(Key::Left)), EditorNotice::Nothing);
    assert_eq!(e.handle_key_event(plain(Key::Backspace)), EditorNotice::Edited);
    assert_eq!(text(&e), vec!["hix".to_string()]);
    assert_eq!(e.handle_key_event(plain(Key::Home)), EditorNotice::Nothing);
    assert_eq!(e.handle_key_event(plain(Key::Delete)), EditorNotice::Edited);
    assert_eq!(text(&e), vec!["ix".to_string()]);
    e.handle_key_event(plain(Key::End));
    assert_eq!(e.cursor.col(), 2);
    assert_eq!(e.handle_key_event(plain(Key::Delete)), EditorNotice::Nothing);
}

#[test]
fn plain_keys_clear_selection_and_shifted_typing_replaces_it() {
    let mut e = editor_with(&["hello world"]);
    e.selection = Some(TextSelection::new(0, 0, 0, 5));
    e.handle_key_event(plain(Key::Right));
    assert!(e.selection.is_none());
    e.selection = Some(TextSelection::new(0, 0, 0, 5));
    let shifted = KeyPress { key: Key::Char('H'), control: false, shift: true };
    assert_eq!(e.handle_key_event(shifted), EditorNotice::Edited);
    assert_eq!(text(&e), vec!["H world".to_string()]);
    assert_eq!((e.cursor.row(), e.cursor.col()), (0, 1));
}

#[test]
fn quit_with_unsaved_changes_needs_confirmation() {
    let mut e = Editor::new();
    assert_eq!(e.handle_key_event(ctrl('q')), EditorNotice::Quit);
    e.handle_key_event(plain(Key::Char('a')));
    assert_eq!(e.handle_key_event(ctrl('q')), EditorNotice::UnsavedChanges);
    assert!(e.modified);
    assert_eq!(e.handle_key_event(ctrl('q')), EditorNotice::Quit);
    let mut f = Editor::new();
    f.handle_key_event(plain(Key::Char('a')));
    f.handle_key_event(ctrl('q'));
    f.handle_key_event(plain(Key::Right));
    assert_eq!(f.handle_key_event(ctrl('q')), EditorNotice::UnsavedChanges);
}

#[test]
fn control_keys() {
    let mut e = editor_with(&["ab", "cde"]);
    assert_eq!(e.handle_key_event(ctrl('s')), EditorNotice::Save);
    assert_eq!(e.handle_key_event(ctrl('o')), EditorNotice::Open);
    assert_eq!(e.handle_key_event(ctrl('h')), EditorNotice::ToggleHighlighting);
    assert_eq!(e.handle_key_event(ctrl('e')), EditorNotice::ToggleLinting);
    assert_eq!(e.handle_key_event(ctrl('t')), EditorNotice::ToggleLanguage);
    assert_eq!(e.handle_key_event(ctrl('l')), EditorNotice::GoToLineUnavailable);
    let end = KeyPress { key: Key::End, control: true, shift: false };
    assert_eq!(e.handle_key_event(end), EditorNotice::DocumentEnd);
    assert_eq!((e.cursor.row(), e.cursor.col()), (1, 3));
    assert_eq!(e.handle_key_event(ctrl('d')), EditorNotice::LineDuplicated);
    assert_eq!(text(&e).len(), 3);
    assert_eq!(e.handle_key_event(ctrl('o')), EditorNotice::SaveBeforeOpen);
    assert_eq!(e.handle_key_event(ctrl('n')), EditorNotice::SaveBeforeNew);
    e.mark_saved();
    assert_eq!(e.handle_key_event(ctrl('k')), EditorNotice::LineDeleted);
    let home = KeyPress { key: Key::Home, control: true, shift: false };
    assert_eq!(e.handle_key_event(home), EditorNotice::DocumentStart);
    assert_eq!((e.cursor.row(), e.cursor.col()), (0, 0));
    e.mark_saved();
    assert_eq!(e.handle_key_event(ctrl('n')), EditorNotice::NewFile);
    assert_eq!(text(&e), vec![String::new()]);
    assert_eq!(e.handle_key_event(ctrl('k')), EditorNotice::LineCleared);
}

#[test]
fn mouse_actions_map_screen_to_document() {
    let mut e = editor_with(&["zero", "one two", "three", "four"]);
    e.scroll_offset = 1;
    assert_eq!(
        e.handle_mouse_action(MouseAction::Click { row: 1, col: 9 }, 2),
        EditorNotice::CursorMoved { row: 1, col: 9 }
    );
    assert_eq!((e.cursor.row(), e.cursor.col()), (2, 5));
    let end = MouseAction::DragEnd { start_row: 0, start_col: 4, end_row: 1, end_col: 2 };
    assert_eq!(e.handle_mouse_action(end, 2), EditorNotice::TextSelected { count: 6 });
    assert_eq!(e.selection, Some(TextSelection::new(1, 4, 2, 2)));
    assert_eq!((e.cursor.row(), e.cursor.col()), (2, 2));
    assert_eq!(
        e.handle_mouse_action(MouseAction::RightClick { row: 0, col: 1 }, 2),
        EditorNotice::ContextMenu { row: 1, col: 1, has_selection: true }
    );
    assert_eq!(e.handle_mouse_action(MouseAction::DoubleClick { row: 2, col: 1 }, 2), EditorNotice::WordSelected);
    assert_eq!(e.selection, Some(TextSelection::new(3, 0, 3, 4)));
    assert_eq!(e.handle_mouse_action(MouseAction::ScrollDown, 2), EditorNotice::ScrolledDown);
    assert_eq!(e.scroll_offset, 2);
    assert_eq!(e.handle_mouse_action(MouseAction::ScrollUp, 2), EditorNotice::ScrolledUp);
    assert_eq!(e.scroll_offset, 0);
    assert_eq!(e.handle_mouse_action(MouseAction::NoAction, 2), EditorNotice::Nothing);
}

#[test]
fn key_handler_bindings() {
    let h = KeyHandler::new();
    assert_eq!(h.handle_key_event(ctrl('q')), KeyAction::Quit);
    assert_eq!(h.handle_key_event(ctrl('x')), KeyAction::NoAction);
    assert_eq!(h.handle_key_event(plain(Key::Char('x'))), KeyAction::InsertChar('x'));
    assert_eq!(h.handle_key_event(plain(Key::Up)), KeyAction::MoveCursor(Direction::Up));
    let home = KeyPress { key: Key::Home, control: true, shift: false };
    assert_eq!(h.handle_key_event(home), KeyAction::GoToDocumentStart);
    assert_eq!(h.handle_key_event(plain(Key::Backspace)), KeyAction::DeleteBackward);
    assert_eq!(h.handle_key_event(plain(Key::Other)), KeyAction::NoAction);
}
