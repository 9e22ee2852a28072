use vstd::prelude::*;
use vstd::string::*;
use crate::cursor::CursorPosition;
use crate::lint::{LintIssue, LintSeverity, count_of, issue_counts, worst_on_line, worst_severity_on_line};
use crate::mouse::{TextSelection, selected_text, selection_contains};
use crate::text::{decimal_digits, push_decimal, push_spaces, spaces};

verus! {

/// The glyph that ends a line cut off at the right edge.
pub const TRUNCATION_MARK: char = '…';

/// How a cell of the content area is drawn.
#[derive(Debug, Clone, Copy, PartialEq, Eq, Structural)]
pub enum CellStyle {
    /// Plain text, or padding after the end of a line.
    Text,
    /// Text inside the selection.
    Selected,
    /// The cell under the cursor.
    Cursor,
    /// The mark at the right edge of a cut-off line.
    Truncated,
    /// A row below the end of the document.
    Filler,
}

/// One character cell of the content area.
#[derive(Debug, Clone, Copy, PartialEq, Eq, Structural)]
pub struct Cell {
    pub ch: char,
    pub style: CellStyle,
}

/// One content row of a frame: the gutter data and exactly `width` cells.
pub struct FrameRow {
    /// The document row shown (counted from 0), or `None` for a filler row.
    pub line_number: Option<usize>,
    /// The row holds the cursor.
    pub is_current: bool,
    /// The most serious diagnostic on the row, when diagnostics are shown.
    pub lint: Option<LintSeverity>,
    pub cells: Vec<Cell>,
}

/// The page: first document row shown, number of content rows, and width
/// of the content area in cells.
#[derive(Debug, Clone, Copy, PartialEq, Eq, Structural)]
pub struct Viewport {
    pub scroll_offset: usize,
    pub height: usize,
    pub width: usize,
}

/// A composed frame: a header row, `height` content rows and a status row.
pub struct Frame {
    pub header: String,
    pub rows: Vec<FrameRow>,
    pub status: String,
}

/// The line is longer than the content area and cell `j` holds the mark.
pub open spec fn truncated_at(line: Seq<char>, j: int, width: int) -> bool {
    line.len() > width && j == width - 1
}

/// The character shown in cell `j` of a line in a content area `width` wide.
pub open spec fn display_char(line: Seq<char>, j: int, width: int) -> char {
    if truncated_at(line, j, width) {
        TRUNCATION_MARK
    } else if j < line.len() {
        line[j]
    } else {
        ' '
    }
}

/// Cell `j` of document row `row`. The cursor cell takes precedence over
/// the truncation mark and the selection; the selection covers text only.
pub open spec fn cell_at(
    line: Seq<char>,
    row: int,
    j: int,
    width: int,
    cursor: CursorPosition,
    selection: Option<TextSelection>,
) -> Cell {
    let style = if row == cursor.row && j == cursor.col {
        CellStyle::Cursor
    } else if truncated_at(line, j, width) {
        CellStyle::Truncated
    } else if j < line.len() && selection is Some && selection_contains(selection->0, row, j) {
        CellStyle::Selected
    } else {
        CellStyle::Text
    };
    Cell { ch: display_char(line, j, width), style }
}

pub open spec fn filler_cell() -> Cell {
    Cell { ch: ' ', style: CellStyle::Filler }
}

/// Content row `i` of the page is the right one for the document, cursor,
/// selection and diagnostics.
pub open spec fn row_matches(
    r: FrameRow,
    i: int,
    lines: Seq<String>,
    cursor: CursorPosition,
    selection: Option<TextSelection>,
    issues: Seq<LintIssue>,
    lint_enabled: bool,
    view: Viewport,
) -> bool {
    let d = view.scroll_offset + i;
    &&& r.cells@.len() == view.width
    &&& if d < lines.len() {
        &&& r.line_number == Some(d as usize)
        &&& r.is_current == (d == cursor.row)
        &&& r.lint == if lint_enabled { worst_on_line(issues, d + 1) } else { None::<LintSeverity> }
        &&& forall|j: int| 0 <= j < view.width ==> #[trigger] r.cells@[j] == cell_at(lines[d]@, d, j, view.width as int, cursor, selection)
    } else {
        &&& r.line_number is None
        &&& !r.is_current
        &&& r.lint is None
        &&& forall|j: int| 0 <= j < view.width ==> #[trigger] r.cells@[j] == filler_cell()
    }
}

/// The cells of document row `row`, whose text is `line`.
fn line_cells(
    line: &str,
    row: usize,
    width: usize,
    cursor: CursorPosition,
    selection: Option<TextSelection>,
) -> (r: Vec<Cell>)
    ensures
        r@.len() == width,
        forall|j: int| 0 <= j < width ==> #[trigger] r@[j] == cell_at(line@, row as int, j, width as int, cursor, selection),
{
    let len = line.unicode_len();
    let mut cells: Vec<Cell> = Vec::new();
    let mut j: usize = 0;
    while j < width
        invariant
            j <= width,
            len == line@.len(),
            cells@.len() == j,
            forall|k: int| 0 <= k < j ==> #[trigger] cells@[k] == cell_at(line@, row as int, k, width as int, cursor, selection),
        decreases width - j,
    {
        let truncated = len > width && j == width - 1;
        let ch = if truncated {
            TRUNCATION_MARK
        } else if j < len {
            line.get_char(j)
        } else {
            ' '
        };
        let selected = match selection {
            Some(s) => j < len && s.contains(row, j),
            None => false,
        };
        let style = if row == cursor.row && j == cursor.col {
            CellStyle::Cursor
        } else if truncated {
            CellStyle::Truncated
        } else if selected {
            CellStyle::Selected
        } else {
            CellStyle::Text
        };
        cells.push(Cell { ch, style });
        j = j + 1;
    }
    cells
}

fn filler_cells(width: usize) -> (r: Vec<Cell>)
    ensures
        r@.len() == width,
        forall|j: int| 0 <= j < width ==> #[trigger] r@[j] == filler_cell(),
{
    let mut cells: Vec<Cell> = Vec::new();
    let mut j: usize = 0;
    while j < width
        invariant
            j <= width,
            cells@.len() == j,
            forall|k: int| 0 <= k < j ==> #[trigger] cells@[k] == filler_cell(),
        decreases width - j,
    {
        cells.push(Cell { ch: ' ', style: CellStyle::Filler });
        j = j + 1;
    }
    cells
}

/// The content rows of the page: exactly `view.height` of them, document
/// rows first and filler rows below the end of the document.
pub fn render_content_lines(
    lines: &[String],
    cursor: CursorPosition,
    selection: Option<TextSelection>,
    issues: &[LintIssue],
    lint_enabled: bool,
    view: Viewport,
) -> (r: Vec<FrameRow>)
    ensures
        r@.len() == view.height,
        forall|i: int| 0 <= i < view.height ==> #[trigger] row_matches(r@[i], i, lines@, cursor, selection, issues@, lint_enabled, view),
{
    let mut rows: Vec<FrameRow> = Vec::new();
    let mut i: usize = 0;
    while i < view.height
        invariant
            i <= view.height,
            rows@.len() == i,
            forall|k: int| 0 <= k < i ==> #[trigger] row_matches(rows@[k], k, lines@, cursor, selection, issues@, lint_enabled, view),
        decreases view.height - i,
    {
        let n = lines.len();
        let row = if view.scroll_offset < n && i < n - view.scroll_offset {
            let d = view.scroll_offset + i;
            let lint = if lint_enabled { worst_severity_on_line(issues, d + 1) } else { None };
            FrameRow {
                line_number: Some(d),
                is_current: d == cursor.row,
                lint,
                cells: line_cells(lines[d].as_str(), d, view.width, cursor, selection),
            }
        } else {
            FrameRow { line_number: None, is_current: false, lint: None, cells: filler_cells(view.width) }
        };
        rows.push(row);
        i = i + 1;
    }
    rows
}

/// `s` padded with spaces to `width` characters; longer text is kept whole.
pub open spec fn fill_to(s: Seq<char>, width: int) -> Seq<char> {
    if s.len() < width { s + spaces((width - s.len()) as nat) } else { s }
}

/// The header text: file name, a mark for unsaved changes, and the language.
pub open spec fn header_text(filename: Option<Seq<char>>, modified: bool, syntax_name: Seq<char>) -> Seq<char> {
    let name = match filename {
        Some(f) => f,
        None => "[No file]"@,
    };
    "📝 "@ + name + (if modified { " ●"@ } else { Seq::empty() }) + " ["@ + syntax_name + "]"@
}

/// `acc` followed by a count and its symbol, separated by a space, unless
/// the count is zero.
pub open spec fn count_part(acc: Seq<char>, count: nat, symbol: Seq<char>) -> Seq<char> {
    if count == 0 {
        acc
    } else if acc.len() == 0 {
        decimal_digits(count) + symbol
    } else {
        acc + " "@ + decimal_digits(count) + symbol
    }
}

/// The diagnostics summary at the end of the status row.
pub open spec fn lint_summary(issues: Seq<LintIssue>, lint_enabled: bool) -> Seq<char> {
    if lint_enabled && issues.len() > 0 {
        let parts = count_part(
            count_part(
                count_part(
                    count_part(Seq::empty(), count_of(issues, LintSeverity::Error), "❌"@),
                    count_of(issues, LintSeverity::Warning),
                    "⚠️"@,
                ),
                count_of(issues, LintSeverity::Info),
                "ℹ️"@,
            ),
            count_of(issues, LintSeverity::Hint),
            "💡"@,
        );
        if parts.len() == 0 { Seq::empty() } else { " | "@ + parts }
    } else if lint_enabled {
        " | ✅"@
    } else {
        Seq::empty()
    }
}

/// The left part of the status row: cursor line and column counted from 1,
/// and the size of the selection.
pub open spec fn status_left(cursor: CursorPosition, selection: Option<TextSelection>, lines: Seq<String>) -> Seq<char> {
    "Ln "@ + decimal_digits((cursor.row + 1) as nat) + ", Col "@ + decimal_digits((cursor.col + 1) as nat)
        + match selection {
        Some(s) => " | "@ + decimal_digits(selected_text(s, lines).len()) + " chars selected"@,
        None => Seq::empty(),
    }
}

/// The right part of the status row: language, line count, diagnostics.
pub open spec fn status_right(syntax_name: Seq<char>, line_count: nat, issues: Seq<LintIssue>, lint_enabled: bool) -> Seq<char> {
    syntax_name + " | "@ + decimal_digits(line_count) + " lines"@ + lint_summary(issues, lint_enabled)
}

/// The status row: the message centred between the two parts when it
/// fits, else set off by one space on each side.
pub open spec fn status_line(left: Seq<char>, message: Seq<char>, right: Seq<char>, width: int) -> Seq<char> {
    let avail = width - (left.len() + right.len());
    if message.len() < avail {
        let pad_left = (avail - message.len()) / 2;
        let pad_right = avail - message.len() - pad_left;
        left + spaces(pad_left as nat) + message + spaces(pad_right as nat) + right
    } else {
        fill_to(left + " "@ + message + " "@ + right, width)
    }
}

fn push_fill(s: &mut String, width: usize)
    ensures
        final(s)@ == fill_to(old(s)@, width as int),
{
    let len = s.as_str().unicode_len();
    if len < width {
        push_spaces(s, width - len);
    }
}

fn push_count_part(acc: &mut String, count: usize, symbol: &str)
    ensures
        final(acc)@ == count_part(old(acc)@, count as nat, symbol@),
{
    if count > 0 {
        if acc.as_str().unicode_len() > 0 {
            acc.append(" ");
        }
        push_decimal(acc, count as u128);
        acc.append(symbol);
    }
}

/// Renders a frame of the editor.
pub struct EditorRenderer;

impl EditorRenderer {
    pub fn new() -> (r: Self) {
        EditorRenderer
    }

    /// A whole frame: header, exactly `view.height` content rows, status row.
    pub fn render_editor(
        &self,
        lines: &[String],
        cursor: CursorPosition,
        selection: Option<TextSelection>,
        issues: &[LintIssue],
        lint_enabled: bool,
        filename: Option<&str>,
        modified: bool,
        syntax_name: &str,
        status_message: &str,
        view: Viewport,
        terminal_width: usize,
    ) -> (r: Frame)
        ensures
            r.header@ == fill_to(
                header_text(
                    match filename {
                        Some(f) => Some(f@),
                        None => None,
                    },
                    modified,
                    syntax_name@,
                ),
                terminal_width as int,
            ),
            r.rows@.len() == view.height,
            forall|i: int| 0 <= i < view.height ==> #[trigger] row_matches(r.rows@[i], i, lines@, cursor, selection, issues@, lint_enabled, view),
            r.status@ == status_line(
                status_left(cursor, selection, lines@),
                status_message@,
                status_right(syntax_name@, lines@.len(), issues@, lint_enabled),
                terminal_width as int,
            ),
    {
        let header = Self::render_header(filename, modified, syntax_name, terminal_width);
        let rows = render_content_lines(lines, cursor, selection, issues, lint_enabled, view);
        let status = Self::render_status_line(lines, cursor, selection, issues, lint_enabled, syntax_name, status_message, terminal_width);
        Frame { header, rows, status }
    }

    /// The header row, padded to the terminal width.
    pub fn render_header(filename: Option<&str>, modified: bool, syntax_name: &str, terminal_width: usize) -> (r: String)
        ensures
            r@ == fill_to(
                header_text(
                    match filename {
                        Some(f) => Some(f@),
                        None => None,
                    },
                    modified,
                    syntax_name@,
                ),
                terminal_width as int,
            ),
    {
        let mut header = String::from_str("📝 ");
        match filename {
            Some(f) => header.append(f),
            None => header.append("[No file]"),
        }
        if modified {
            header.append(" ●");
        }
        header.append(" [");
        header.append(syntax_name);
        header.append("]");
        push_fill(&mut header, terminal_width);
        header
    }

    /// The status row, padded to the terminal width where it fits.
    pub fn render_status_line(
        lines: &[String],
        cursor: CursorPosition,
        selection: Option<TextSelection>,
        issues: &[LintIssue],
        lint_enabled: bool,
        syntax_name: &str,
        status_message: &str,
        terminal_width: usize,
    ) -> (r: String)
        ensures
            r@ == status_line(
                status_left(cursor, selection, lines@),
                status_message@,
                status_right(syntax_name@, lines@.len(), issues@, lint_enabled),
                terminal_width as int,
            ),
    {
        let left = status_left_text(lines, cursor, selection);
        let mut right = String::from_str(syntax_name);
        right.append(" | ");
        push_decimal(&mut right, lines.len() as u128);
        right.append(" lines");
        let summary = lint_summary_text(issues, lint_enabled);
        right.append(summary.as_str());
        compose_status(left, status_message, right.as_str(), terminal_width)
    }
}

fn status_left_text(lines: &[String], cursor: CursorPosition, selection: Option<TextSelection>) -> (r: String)
    ensures
        r@ == status_left(cursor, selection, lines@),
{
    let mut left = String::from_str("Ln ");
    push_decimal(&mut left, cursor.row as u128 + 1);
    left.append(", Col ");
    push_decimal(&mut left, cursor.col as u128 + 1);
    match selection {
        Some(s) => {
            let text = s.get_selected_text(lines);
            left.append(" | ");
            push_decimal(&mut left, text.as_str().unicode_len() as u128);
            left.append(" chars selected");
        },
        None => {},
    }
    left
}

fn lint_summary_text(issues: &[LintIssue], lint_enabled: bool) -> (r: String)
    ensures
        r@ == lint_summary(issues@, lint_enabled),
{
    let mut summary = String::new();
    if lint_enabled && issues.len() > 0 {
        let (errors, warnings, infos, hints) = issue_counts(issues);
        let mut parts = String::new();
        push_count_part(&mut parts, errors, "❌");
        push_count_part(&mut parts, warnings, "⚠️");
        push_count_part(&mut parts, infos, "ℹ️");
        push_count_part(&mut parts, hints, "💡");
        if parts.as_str().unicode_len() > 0 {
            summary.append(" | ");
            summary.append(parts.as_str());
        }
    } else if lint_enabled {
        summary.append(" | ✅");
    }
    summary
}

fn compose_status(left: String, message: &str, right: &str, width: usize) -> (r: String)
    ensures
        r@ == status_line(left@, message@, right@, width as int),
{
    let left_width = left.as_str().unicode_len();
    let right_width = right.unicode_len();
    let message_width = message.unicode_len();
    let avail: usize = if left_width <= width && right_width <= width - left_width {
        width - left_width - right_width
    } else {
        0
    };
    let mut status = left;
    if message_width < avail {
        let pad_left = (avail - message_width) / 2;
        let pad_right = avail - message_width - pad_left;
        push_spaces(&mut status, pad_left);
        status.append(message);
        push_spaces(&mut status, pad_right);
        status.append(right);
    } else {
        status.append(" ");
        status.append(message);
        status.append(" ");
        status.append(right);
        push_fill(&mut status, width);
    }
    status
}

/// The default shortest time between two renders during bursts of events.
pub const RENDER_THROTTLE_MS: u64 = 16;

/// Limits renders to one per interval unless a render is forced.
pub struct RenderThrottle {
    /// When the last render happened, in milliseconds on a monotonic clock.
    pub last_render_ms: Option<u64>,
    pub interval_ms: u64,
}

impl RenderThrottle {
    pub fn new(interval_ms: u64) -> (r: Self)
        ensures
            r.last_render_ms is None,
            r.interval_ms == interval_ms,
    {
        RenderThrottle { last_render_ms: None, interval_ms }
    }

    /// Whether to render at `now_ms`: when forced, before the first render,
    /// or once the interval has passed since the last one.
    pub fn should_render(&self, now_ms: u64, forced: bool) -> (r: bool)
        ensures
            r == (forced || match self.last_render_ms {
                Some(t) => now_ms as int - t as int >= self.interval_ms as int,
                None => true,
            }),
    {
        if forced {
            return true;
        }
        match self.last_render_ms {
            Some(t) => now_ms >= t && now_ms - t >= self.interval_ms,
            None => true,
        }
    }

    /// Records a render at `now_ms`.
    pub fn record_render(&mut self, now_ms: u64)
        ensures
            final(self).last_render_ms == Some(now_ms),
            final(self).interval_ms == old(self).interval_ms,
    {
        self.last_render_ms = Some(now_ms);
    }
}

impl Default for EditorRenderer {
    fn default() -> (r: Self) {
        EditorRenderer
    }
}

} // verus!
