use hello_tui::cursor::CursorPosition;
use hello_tui::lint::{issue_counts, worst_severity_on_line, LintIssue, LintSeverity};
use hello_tui::mouse::TextSelection;
use hello_tui::editor::EditorNotice;
use hello_tui::render::{render_content_lines, Cell, CellStyle, EditorRenderer, RenderThrottle, Viewport};

fn lines(v: &[&str]) -> Vec<String> {
    v.iter().map(|s| s.to_string()).collect()
}

fn issue(line: usize, severity: LintSeverity) -> LintIssue {
    LintIssue { line, column: 1, message: String::from("m"), severity, rule_name: String::from("r") }
}

fn row_text(cells: &[Cell]) -> String {
    cells.iter().map(|c| c.ch).collect()
}

#[test]
fn frame_has_height_rows_for_short_document() {
    let buf = lines(&["one", "two"]);
    let view = Viewport { scroll_offset: 0, height: 5, width: 6 };
    let rows = render_content_lines(&buf, CursorPosition::new(0, 0), None, &[], false, view);
    assert_eq!(rows.len(), 5);
    assert_eq!(rows[0].line_number, Some(0));
    assert_eq!(rows[1].line_number, Some(1));
    for row in &rows[2..] {
        assert_eq!(row.line_number, None);
        assert_eq!(row.cells.len(), 6);
        assert!(row.cells.iter().all(|c| c.style == CellStyle::Filler));
    }
}

#[test]
fn frame_has_height_rows_for_long_document() {
    let buf: Vec<String> = (0..50).map(|i| format!("line {}", i)).collect();
    let view = Viewport { scroll_offset: 10, height: 5, width: 8 };
    let rows = render_content_lines(&buf, CursorPosition::new(12, 0), None, &[], false, view);
    assert_eq!(rows.len(), 5);
    assert_eq!(rows[0].line_number, Some(10));
    assert_eq!(rows[4].line_number, Some(14));
    assert!(rows[2].is_current);
    assert!(!rows[1].is_current);
    assert_eq!(row_text(&rows[0].cells), "line 10 ");
}

#[test]
fn long_lines_are_truncated_with_a_mark() {
    let buf = lines(&["abcdefghij", "ab"]);
    let view = Viewport { scroll_offset: 0, height: 2, width: 5 };
    let rows = render_content_lines(&buf, CursorPosition::new(1, 0), None, &[], false, view);
    assert_eq!(row_text(&rows[0].cells), "abcd…");
    assert_eq!(rows[0].cells[4].style, CellStyle::Truncated);
    assert_eq!(row_text(&rows[1].cells), "ab   ");
    let wide = lines(&["añbç"]);
    let rows = render_content_lines(&wide, CursorPosition::new(0, 0), None, &[], false, Viewport { scroll_offset: 0, height: 1, width: 3 });
    assert_eq!(row_text(&rows[0].cells), "añ…");
}

#[test]
fn cursor_cell_takes_precedence_over_selection() {
    let buf = lines(&["hello"]);
    let sel = TextSelection::new(0, 1, 0, 4);
    let view = Viewport { scroll_offset: 0, height: 1, width: 6 };
    let rows = render_content_lines(&buf, CursorPosition::new(0, 2), Some(sel), &[], false, view);
    let styles: Vec<CellStyle> = rows[0].cells.iter().map(|c| c.style).collect();
    assert_eq!(
        styles,
        vec![
            CellStyle::Text,
            CellStyle::Selected,
            CellStyle::Cursor,
            CellStyle::Selected,
            CellStyle::Text,
            CellStyle::Text
        ]
    );
    let at_end = render_content_lines(&buf, CursorPosition::new(0, 5), None, &[], false, view);
    assert_eq!(at_end[0].cells[5], Cell { ch: ' ', style: CellStyle::Cursor });
}

#[test]
fn lint_markers_pick_most_serious() {
    let issues = vec![
        issue(1, LintSeverity::Hint),
        issue(2, LintSeverity::Info),
        issue(2, LintSeverity::Error),
        issue(2, LintSeverity::Warning),
        issue(3, LintSeverity::Hint),
    ];
    assert_eq!(worst_severity_on_line(&issues, 1), Some(LintSeverity::Hint));
    assert_eq!(worst_severity_on_line(&issues, 2), Some(LintSeverity::Error));
    assert_eq!(worst_severity_on_line(&issues, 4), None);
    assert_eq!(issue_counts(&issues), (1, 1, 1, 2));
    let buf = lines(&["a", "b", "c", "d"]);
    let view = Viewport { scroll_offset: 0, height: 4, width: 2 };
    let rows = render_content_lines(&buf, CursorPosition::new(0, 0), None, &issues, true, view);
    assert_eq!(rows[1].lint, Some(LintSeverity::Error));
    assert_eq!(rows[3].lint, None);
    let off = render_content_lines(&buf, CursorPosition::new(0, 0), None, &issues, false, view);
    assert_eq!(off[1].lint, None);
}

#[test]
fn header_is_padded_to_width() {
    let h = EditorRenderer::render_header(Some("main.rs"), true, "Rust", 30);
    assert_eq!(h, format!("📝 main.rs ● [Rust]{}", " ".repeat(12)));
    let h = EditorRenderer::render_header(None, false, "Plain Text", 5);
    assert_eq!(h, "📝 [No file] [Plain Text]");
}

#[test]
fn status_line_centres_message() {
    let buf = lines(&["abc", "de"]);
    let s = EditorRenderer::render_status_line(&buf, CursorPosition::new(1, 2), None, &[], false, "Rust", "hi", 40);
    let left = "Ln 2, Col 3";
    let right = "Rust | 2 lines";
    let avail = 40 - left.len() - right.len();
    let pad = (avail - 2) / 2;
    assert_eq!(s, format!("{}{}hi{}{}", left, " ".repeat(pad), " ".repeat(avail - 2 - pad), right));
    assert_eq!(s.chars().count(), 40);
}

#[test]
fn status_line_reports_selection_and_lint() {
    let buf = lines(&["first line", "second line", "third line"]);
    let sel = TextSelection::new(0, 6, 2, 5);
    let issues = vec![issue(1, LintSeverity::Error), issue(2, LintSeverity::Error), issue(2, LintSeverity::Hint)];
    let s = EditorRenderer::render_status_line(&buf, CursorPosition::new(0, 0), Some(sel), &issues, true, "Rust", "a long message", 10);
    assert_eq!(s, "Ln 1, Col 1 | 22 chars selected a long message Rust | 3 lines | 2❌ 1💡");
    let ok = EditorRenderer::render_status_line(&buf, CursorPosition::new(9, 99), None, &[], true, "X", "", 0);
    assert_eq!(ok, "Ln 10, Col 100  X | 3 lines | ✅");
}

#[test]
fn status_line_counts_from_one_at_the_largest_position() {
    let buf = lines(&["a"]);
    let s = EditorRenderer::render_status_line(&buf, CursorPosition::new(usize::MAX, usize::MAX), None, &[], false, "X", "", 0);
    assert_eq!(s, "Ln 18446744073709551616, Col 18446744073709551616  X | 1 lines");
}

#[test]
fn whole_frame() {
    let buf = lines(&["x"]);
    let r = EditorRenderer::new();
    let frame = r.render_editor(&buf, CursorPosition::new(0, 1), None, &[], false, Some("a.txt"), false, "Plain Text", "ok", Viewport { scroll_offset: 0, height: 3, width: 4 }, 40);
    assert_eq!(frame.rows.len(), 3);
    assert_eq!(frame.header.chars().count(), 40);
    assert_eq!(frame.status.chars().count(), 40);
    assert_eq!(frame.rows[0].cells[1].style, CellStyle::Cursor);
}

#[test]
fn throttle_limits_renders_unless_forced() {
    let mut t = RenderThrottle::new(16);
    assert!(t.should_render(0, false));
    t.record_render(100);
    assert!(!t.should_render(110, false));
    assert!(t.should_render(110, true));
    assert!(t.should_render(116, false));
    assert!(!t.should_render(50, false));
}

#[test]
fn notices_that_force_a_render() {
    assert!(EditorNotice::Save.forces_render());
    assert!(EditorNotice::ToggleLanguage.forces_render());
    assert!(EditorNotice::ScrolledDown.forces_render());
    assert!(EditorNotice::CursorMoved { row: 1, col: 2 }.forces_render());
    assert!(!EditorNotice::Selecting.forces_render());
    assert!(!EditorNotice::Edited.forces_render());
    assert!(!EditorNotice::Nothing.forces_render());
}
