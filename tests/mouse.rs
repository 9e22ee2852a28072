use hello_tui::mouse::{
    find_word_boundaries, MouseAction, MouseButton, MouseController, PointerEvent, PointerKind, TextSelection,
};

fn down(row: usize, col: usize) -> PointerEvent {
    PointerEvent { kind: PointerKind::Down(MouseButton::Left), row, col }
}

fn event(kind: PointerKind, row: usize, col: usize) -> PointerEvent {
    PointerEvent { kind, row, col }
}

#[test]
fn test_mouse_controller_creation() {
    let controller = MouseController::new();
    assert!(!controller.has_active_selection());
    assert_eq!(controller.get_last_click_position(), (0, 0));
}

#[test]
fn test_text_selection() {
    let selection = TextSelection::new(1, 5, 3, 10);
    assert!(selection.contains(2, 0));
    assert!(selection.contains(1, 5));
    assert!(!selection.contains(1, 4));
    assert!(!selection.contains(3, 10));
}

#[test]
fn test_word_boundaries() {
    let line = "hello world test";
    assert_eq!(find_word_boundaries(line, 7), (6, 11));
    assert_eq!(find_word_boundaries(line, 0), (0, 5));
    assert_eq!(find_word_boundaries(line, 12), (12, 16));
}

#[test]
fn test_text_selection_content() {
    let lines = vec!["first line".to_string(), "second line".to_string(), "third line".to_string()];

    let selection = TextSelection::new(1, 2, 1, 8);
    assert_eq!(selection.get_selected_text(&lines), "cond l");

    let selection = TextSelection::new(0, 6, 2, 5);
    assert_eq!(selection.get_selected_text(&lines), "line\nsecond line\nthird");
}

#[test]
fn test_selection_ordering() {
    let selection = TextSelection::new(3, 10, 1, 5);
    assert_eq!(selection.start_row, 1);
    assert_eq!(selection.start_col, 5);
    assert_eq!(selection.end_row, 3);
    assert_eq!(selection.end_col, 10);
}

#[test]
fn selection_contains_on_rows_of_a_span() {
    let selection = TextSelection::new(1, 5, 3, 10);
    assert!(selection.contains(2, 0));
    assert!(!selection.contains(1, 4));
    assert!(!selection.contains(3, 10));
    assert!(selection.contains(3, 9));
    assert!(!selection.contains(0, 7));
    assert!(!selection.contains(4, 0));
}

#[test]
fn selection_contains_on_a_single_row() {
    let selection = TextSelection::new(2, 3, 2, 6);
    assert!(!selection.contains(2, 2));
    assert!(selection.contains(2, 3));
    assert!(selection.contains(2, 5));
    assert!(!selection.contains(2, 6));
}

#[test]
fn selection_is_order_independent() {
    assert_eq!(TextSelection::new(1, 5, 3, 10), TextSelection::new(3, 10, 1, 5));
    assert_eq!(TextSelection::new(2, 8, 2, 1), TextSelection::new(2, 1, 2, 8));
    assert_eq!(TextSelection::new(4, 4, 4, 4), TextSelection::new(4, 4, 4, 4));
}

#[test]
fn selected_text_counts_characters_not_bytes() {
    let lines = vec!["héllo wörld".to_string()];
    let selection = TextSelection::new(0, 1, 0, 9);
    assert_eq!(selection.get_selected_text(&lines), "éllo wör");
}

#[test]
fn selected_text_past_the_buffer_is_empty() {
    let lines = vec!["abc".to_string()];
    assert_eq!(TextSelection::new(3, 0, 4, 2).get_selected_text(&lines), "");
    assert_eq!(TextSelection::new(0, 2, 0, 2).get_selected_text(&lines), "");
    assert_eq!(TextSelection::new(0, 1, 2, 0).get_selected_text(&lines), "bc\n");
}

#[test]
fn word_boundaries_outside_the_line() {
    assert_eq!(find_word_boundaries("", 0), (0, 0));
    assert_eq!(find_word_boundaries("abc", 3), (3, 3));
    assert_eq!(find_word_boundaries("foo_bar baz", 2), (0, 7));
    assert_eq!(find_word_boundaries("a, b", 1), (0, 1));
}

#[test]
fn double_click_within_window_then_click_after_it() {
    let mut m = MouseController::new();
    assert_eq!(m.handle_mouse_event(down(5, 10), 0), MouseAction::Click { row: 5, col: 10 });
    assert_eq!(m.handle_mouse_event(down(5, 11), 300), MouseAction::DoubleClick { row: 5, col: 11 });
    assert_eq!(m.handle_mouse_event(down(5, 11), 900), MouseAction::Click { row: 5, col: 11 });
}

#[test]
fn double_click_needs_same_row_and_near_column() {
    let mut m = MouseController::new();
    m.handle_mouse_event(down(5, 10), 0);
    assert_eq!(m.handle_mouse_event(down(6, 10), 100), MouseAction::Click { row: 6, col: 10 });
    assert_eq!(m.handle_mouse_event(down(6, 13), 200), MouseAction::Click { row: 6, col: 13 });
    assert_eq!(m.handle_mouse_event(down(6, 11), 300), MouseAction::DoubleClick { row: 6, col: 11 });
    assert_eq!(m.get_last_click_position(), (6, 11));
}

#[test]
fn first_click_is_never_a_double_click() {
    let mut m = MouseController::new();
    assert_eq!(m.handle_mouse_event(down(0, 0), 0), MouseAction::Click { row: 0, col: 0 });
}

#[test]
fn drag_and_release_report_a_selection() {
    let mut m = MouseController::new();
    m.handle_mouse_event(down(1, 2), 0);
    assert_eq!(
        m.handle_mouse_event(event(PointerKind::Drag(MouseButton::Left), 2, 4), 10),
        MouseAction::Drag { start_row: 1, start_col: 2, current_row: 2, current_col: 4 }
    );
    assert_eq!(
        m.handle_mouse_event(event(PointerKind::Up(MouseButton::Left), 3, 1), 20),
        MouseAction::DragEnd { start_row: 1, start_col: 2, end_row: 3, end_col: 1 }
    );
    assert!(m.has_active_selection());
    m.clear_selection();
    assert!(!m.has_active_selection());
}

#[test]
fn release_where_pressed_reports_nothing() {
    let mut m = MouseController::new();
    m.handle_mouse_event(down(1, 2), 0);
    assert_eq!(m.handle_mouse_event(event(PointerKind::Up(MouseButton::Left), 1, 2), 50), MouseAction::NoAction);
    assert!(!m.has_active_selection());
    assert_eq!(m.handle_mouse_event(event(PointerKind::Drag(MouseButton::Left), 1, 3), 60), MouseAction::NoAction);
}

#[test]
fn other_pointer_events() {
    let mut m = MouseController::new();
    assert_eq!(
        m.handle_mouse_event(event(PointerKind::Down(MouseButton::Right), 4, 7), 0),
        MouseAction::RightClick { row: 4, col: 7 }
    );
    assert_eq!(m.handle_mouse_event(event(PointerKind::ScrollUp, 0, 0), 0), MouseAction::ScrollUp);
    assert_eq!(m.handle_mouse_event(event(PointerKind::ScrollDown, 0, 0), 0), MouseAction::ScrollDown);
    assert_eq!(m.handle_mouse_event(event(PointerKind::Other, 0, 0), 0), MouseAction::NoAction);
    assert_eq!(m.get_last_click_position(), (0, 0));
}
