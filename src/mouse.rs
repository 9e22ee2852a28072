use vstd::prelude::*;
use vstd::string::*;
use crate::text::{is_word_char, word_char, substring};

verus! {

/// How long after a click a second one counts as a double click.
pub const DOUBLE_CLICK_WINDOW_MS: u64 = 500;

/// How many columns apart two clicks of a double click may be.
pub const COLUMN_TOLERANCE: usize = 2;

/// Buttons of a pointer device.
#[derive(Debug, Clone, Copy, PartialEq, Eq, Structural)]
pub enum MouseButton {
    Left,
    Right,
    Middle,
}

/// Kinds of raw pointer events.
#[derive(Debug, Clone, Copy, PartialEq, Eq, Structural)]
pub enum PointerKind {
    Down(MouseButton),
    Up(MouseButton),
    Drag(MouseButton),
    ScrollUp,
    ScrollDown,
    Other,
}

/// A raw pointer event at a screen position.
#[derive(Debug, Clone, Copy, PartialEq, Eq, Structural)]
pub struct PointerEvent {
    pub kind: PointerKind,
    pub row: usize,
    pub col: usize,
}

/// Actions that can result from mouse events.
#[derive(Debug, Clone, Copy, PartialEq, Eq, Structural)]
pub enum MouseAction {
    /// Single click at position
    Click { row: usize, col: usize },
    /// Double click at position (word selection)
    DoubleClick { row: usize, col: usize },
    /// Right click at position (context menu)
    RightClick { row: usize, col: usize },
    /// Mouse drag in progress
    Drag { start_row: usize, start_col: usize, current_row: usize, current_col: usize },
    /// Mouse drag finished (text selection)
    DragEnd { start_row: usize, start_col: usize, end_row: usize, end_col: usize },
    /// Scroll wheel up
    ScrollUp,
    /// Scroll wheel down
    ScrollDown,
    /// No action needed
    NoAction,
}

/// Gesture state: the last primary click and the anchor of a press or drag.
pub struct MouseController {
    pub last_click_row: usize,
    pub last_click_col: usize,
    /// Time of the last primary click in milliseconds, if there was one.
    pub last_click_time: Option<u64>,
    pub drag_anchor: Option<(usize, usize)>,
    pub selection_active: bool,
    pub double_click_threshold_ms: u64,
    pub column_tolerance: usize,
}

pub open spec fn abs_diff(a: int, b: int) -> int {
    if a >= b { a - b } else { b - a }
}

/// A primary press at `(row, col)` at time `now` completes a double click.
pub open spec fn is_double_click(m: MouseController, row: usize, col: usize, now: u64) -> bool {
    &&& m.last_click_time is Some
    &&& (now as int) - (m.last_click_time->0 as int) < m.double_click_threshold_ms as int
    &&& m.last_click_row == row
    &&& abs_diff(m.last_click_col as int, col as int) <= m.column_tolerance as int
}

/// The gesture state and action after event `ev` at time `now`.
pub open spec fn gesture_step(m: MouseController, ev: PointerEvent, now: u64) -> (MouseController, MouseAction) {
    match ev.kind {
        PointerKind::Down(MouseButton::Left) => {
            let clicked = MouseController {
                last_click_row: ev.row,
                last_click_col: ev.col,
                last_click_time: Some(now),
                ..m
            };
            if is_double_click(m, ev.row, ev.col, now) {
                (MouseController { drag_anchor: None, ..clicked }, MouseAction::DoubleClick { row: ev.row, col: ev.col })
            } else {
                (
                    MouseController { drag_anchor: Some((ev.row, ev.col)), selection_active: false, ..clicked },
                    MouseAction::Click { row: ev.row, col: ev.col },
                )
            }
        },
        PointerKind::Up(MouseButton::Left) => match m.drag_anchor {
            Some(anchor) => if anchor.0 != ev.row || anchor.1 != ev.col {
                (
                    MouseController { drag_anchor: None, selection_active: true, ..m },
                    MouseAction::DragEnd { start_row: anchor.0, start_col: anchor.1, end_row: ev.row, end_col: ev.col },
                )
            } else {
                (MouseController { drag_anchor: None, ..m }, MouseAction::NoAction)
            },
            None => (m, MouseAction::NoAction),
        },
        PointerKind::Drag(MouseButton::Left) => match m.drag_anchor {
            Some(anchor) => (
                m,
                MouseAction::Drag { start_row: anchor.0, start_col: anchor.1, current_row: ev.row, current_col: ev.col },
            ),
            None => (m, MouseAction::NoAction),
        },
        PointerKind::Down(MouseButton::Right) => (m, MouseAction::RightClick { row: ev.row, col: ev.col }),
        PointerKind::ScrollUp => (m, MouseAction::ScrollUp),
        PointerKind::ScrollDown => (m, MouseAction::ScrollDown),
        _ => (m, MouseAction::NoAction),
    }
}

impl MouseController {
    /// A controller with no click recorded and no anchor.
    pub fn new() -> (r: Self)
        ensures
            r.last_click_row == 0,
            r.last_click_col == 0,
            r.last_click_time is None,
            r.drag_anchor is None,
            !r.selection_active,
            r.double_click_threshold_ms == DOUBLE_CLICK_WINDOW_MS,
            r.column_tolerance == COLUMN_TOLERANCE,
    {
        MouseController {
            last_click_row: 0,
            last_click_col: 0,
            last_click_time: None,
            drag_anchor: None,
            selection_active: false,
            double_click_threshold_ms: DOUBLE_CLICK_WINDOW_MS,
            column_tolerance: COLUMN_TOLERANCE,
        }
    }

    /// Interprets a raw pointer event that happened at `now_ms` on a
    /// monotonic clock.
    pub fn handle_mouse_event(&mut self, event: PointerEvent, now_ms: u64) -> (r: MouseAction)
        ensures
            (*final(self), r) == gesture_step(*old(self), event, now_ms),
    {
        match event.kind {
            PointerKind::Down(MouseButton::Left) => {
                let row = event.row;
                let col = event.col;
                let within_window = match self.last_click_time {
                    Some(t) => now_ms < t || now_ms - t < self.double_click_threshold_ms,
                    None => false,
                };
                let col_gap = if self.last_click_col >= col { self.last_click_col - col } else { col - self.last_click_col };
                let double = within_window && self.last_click_row == row && col_gap <= self.column_tolerance;
                self.last_click_time = Some(now_ms);
                self.last_click_row = row;
                self.last_click_col = col;
                if double {
                    self.drag_anchor = None;
                    MouseAction::DoubleClick { row, col }
                } else {
                    self.drag_anchor = Some((row, col));
                    self.selection_active = false;
                    MouseAction::Click { row, col }
                }
            },
            PointerKind::Up(MouseButton::Left) => {
                match self.drag_anchor {
                    Some(anchor) => {
                        self.drag_anchor = None;
                        if anchor.0 != event.row || anchor.1 != event.col {
                            self.selection_active = true;
                            MouseAction::DragEnd {
                                start_row: anchor.0,
                                start_col: anchor.1,
                                end_row: event.row,
                                end_col: event.col,
                            }
                        } else {
                            MouseAction::NoAction
                        }
                    },
                    None => MouseAction::NoAction,
                }
            },
            PointerKind::Drag(MouseButton::Left) => {
                match self.drag_anchor {
                    Some(anchor) => MouseAction::Drag {
                        start_row: anchor.0,
                        start_col: anchor.1,
                        current_row: event.row,
                        current_col: event.col,
                    },
                    None => MouseAction::NoAction,
                }
            },
            PointerKind::Down(MouseButton::Right) => MouseAction::RightClick { row: event.row, col: event.col },
            PointerKind::ScrollUp => MouseAction::ScrollUp,
            PointerKind::ScrollDown => MouseAction::ScrollDown,
            _ => MouseAction::NoAction,
        }
    }

    /// Whether a completed drag has left a selection.
    pub fn has_active_selection(&self) -> (r: bool)
        ensures
            r == self.selection_active,
    {
        self.selection_active
    }

    /// Forgets the selection and any drag anchor.
    pub fn clear_selection(&mut self)
        ensures
            !final(self).selection_active,
            final(self).drag_anchor is None,
            final(self).last_click_row == old(self).last_click_row,
            final(self).last_click_col == old(self).last_click_col,
            final(self).last_click_time == old(self).last_click_time,
            final(self).double_click_threshold_ms == old(self).double_click_threshold_ms,
            final(self).column_tolerance == old(self).column_tolerance,
    {
        self.selection_active = false;
        self.drag_anchor = None;
    }

    /// The position of the last primary click, as (row, column).
    pub fn get_last_click_position(&self) -> (r: (usize, usize))
        ensures
            r == (self.last_click_row, self.last_click_col),
    {
        (self.last_click_row, self.last_click_col)
    }
}

impl Default for MouseController {
    fn default() -> (r: Self)
        ensures
            r.last_click_time is None,
            r.drag_anchor is None,
            !r.selection_active,
    {
        MouseController::new()
    }
}

/// A range of text between two positions, start before end in row-major order.
#[derive(Debug, Clone, Copy, PartialEq, Eq, Structural)]
pub struct TextSelection {
    pub start_row: usize,
    pub start_col: usize,
    pub end_row: usize,
    pub end_col: usize,
}

/// `(r1, c1)` comes no later than `(r2, c2)` in row-major order.
pub open spec fn pos_le(r1: int, c1: int, r2: int, c2: int) -> bool {
    r1 < r2 || (r1 == r2 && c1 <= c2)
}

/// The selection between two endpoints given in either order.
pub open spec fn normalized(r1: usize, c1: usize, r2: usize, c2: usize) -> TextSelection {
    if pos_le(r1 as int, c1 as int, r2 as int, c2 as int) {
        TextSelection { start_row: r1, start_col: c1, end_row: r2, end_col: c2 }
    } else {
        TextSelection { start_row: r2, start_col: c2, end_row: r1, end_col: c1 }
    }
}

/// Whether the character cell `(row, col)` lies in the selection.
pub open spec fn selection_contains(s: TextSelection, row: int, col: int) -> bool {
    if row < s.start_row || row > s.end_row {
        false
    } else if row == s.start_row && row == s.end_row {
        s.start_col <= col < s.end_col
    } else if row == s.start_row {
        col >= s.start_col
    } else if row == s.end_row {
        col < s.end_col
    } else {
        true
    }
}

pub open spec fn clamp_to(c: int, len: int) -> int {
    if c < len { c } else { len }
}

/// What line `row` contributes to the text of a selection spanning several
/// rows, with the newline that follows it.
pub open spec fn row_piece(s: TextSelection, lines: Seq<String>, row: int) -> Seq<char> {
    let line = lines[row]@;
    let body = if row == s.start_row {
        line.subrange(clamp_to(s.start_col as int, line.len() as int), line.len() as int)
    } else if row == s.end_row {
        line.subrange(0, clamp_to(s.end_col as int, line.len() as int))
    } else {
        line
    };
    if row < s.end_row { body.push('\n') } else { body }
}

/// The pieces of rows `[from, to)` one after another.
pub open spec fn pieces(s: TextSelection, lines: Seq<String>, from: int, to: int) -> Seq<char>
    decreases to - from,
{
    if to <= from {
        Seq::empty()
    } else {
        pieces(s, lines, from, to - 1) + row_piece(s, lines, to - 1)
    }
}

/// The text that a selection covers in `lines`; rows past the end of the
/// buffer contribute nothing.
pub open spec fn selected_text(s: TextSelection, lines: Seq<String>) -> Seq<char> {
    if s.start_row >= lines.len() {
        Seq::empty()
    } else if s.start_row == s.end_row {
        let line = lines[s.start_row as int]@;
        let from = clamp_to(s.start_col as int, line.len() as int);
        let to = clamp_to(s.end_col as int, line.len() as int);
        if from < to { line.subrange(from, to) } else { Seq::empty() }
    } else {
        let last = if s.end_row < lines.len() - 1 { s.end_row as int } else { lines.len() - 1 };
        pieces(s, lines, s.start_row as int, last + 1)
    }
}

impl TextSelection {
    /// The selection between two endpoints, ordered so that start comes first.
    pub fn new(start_row: usize, start_col: usize, end_row: usize, end_col: usize) -> (r: Self)
        ensures
            r == normalized(start_row, start_col, end_row, end_col),
    {
        if start_row < end_row || (start_row == end_row && start_col <= end_col) {
            TextSelection { start_row, start_col, end_row, end_col }
        } else {
            TextSelection { start_row: end_row, start_col: end_col, end_row: start_row, end_col: start_col }
        }
    }

    /// Whether the character cell `(row, col)` lies in this selection.
    pub fn contains(&self, row: usize, col: usize) -> (r: bool)
        ensures
            r == selection_contains(*self, row as int, col as int),
    {
        if row < self.start_row || row > self.end_row {
            false
        } else if row == self.start_row && row == self.end_row {
            col >= self.start_col && col < self.end_col
        } else if row == self.start_row {
            col >= self.start_col
        } else if row == self.end_row {
            col < self.end_col
        } else {
            true
        }
    }

    /// The selected text, rows joined by newlines.
    pub fn get_selected_text(&self, lines: &[String]) -> (r: String)
        ensures
            r@ == selected_text(*self, lines@),
    {
        if self.start_row >= lines.len() {
            return String::new();
        }
        if self.start_row == self.end_row {
            let line = lines[self.start_row].as_str();
            let len = line.unicode_len();
            let from = if self.start_col < len { self.start_col } else { len };
            let to = if self.end_col < len { self.end_col } else { len };
            if from < to {
                substring(line, from, to)
            } else {
                String::new()
            }
        } else {
            let last = if self.end_row < lines.len() - 1 { self.end_row } else { lines.len() - 1 };
            let mut result = String::new();
            let mut row = self.start_row;
            while row <= last
                invariant
                    self.start_row <= row,
                    row <= last + 1 || row == self.start_row,
                    last < lines@.len() <= usize::MAX,
                    self.start_row != self.end_row,
                    result@ == pieces(*self, lines@, self.start_row as int, row as int),
                decreases last + 1 - row,
            {
                let piece = self.row_piece(lines, row);
                result.append(piece.as_str());
                row = row + 1;
            }
            result
        }
    }

    fn row_piece(&self, lines: &[String], row: usize) -> (r: String)
        requires
            row < lines@.len(),
        ensures
            r@ == row_piece(*self, lines@, row as int),
    {
        let line = lines[row].as_str();
        let len = line.unicode_len();
        let mut body = if row == self.start_row {
            let from = if self.start_col < len { self.start_col } else { len };
            substring(line, from, len)
        } else if row == self.end_row {
            let to = if self.end_col < len { self.end_col } else { len };
            substring(line, 0, to)
        } else {
            substring(line, 0, len)
        };
        proof {
            assert(lines@[row as int]@.subrange(0, len as int) =~= lines@[row as int]@);
        }
        if row < self.end_row {
            body.append("\n");
            proof {
                reveal_strlit("\n");
            }
        }
        body
    }
}

/// Construction does not depend on the order of the two endpoints.
pub proof fn lemma_selection_order_independent(r1: usize, c1: usize, r2: usize, c2: usize)
    ensures
        normalized(r1, c1, r2, c2) == normalized(r2, c2, r1, c1),
{
}

/// The word around character `col` of `line`: `[start, end)` with
/// `start <= col <= end`, every character in it a word character, and the
/// characters just outside it not. Where `col` is not inside the line, the
/// result is `(col, col)`.
pub fn find_word_boundaries(line: &str, col: usize) -> (r: (usize, usize))
    ensures
        col >= line@.len() ==> r == (col, col),
        col < line@.len() ==> {
            &&& r.0 <= col <= r.1 <= line@.len()
            &&& forall|i: int| r.0 <= i < col ==> #[trigger] word_char(line@[i])
            &&& forall|i: int| col <= i < r.1 ==> #[trigger] word_char(line@[i])
            &&& (r.0 == 0 || !word_char(line@[r.0 - 1]))
            &&& (r.1 == line@.len() || !word_char(line@[r.1 as int]))
        },
{
    let len = line.unicode_len();
    if len == 0 || col >= len {
        return (col, col);
    }
    let mut start = col;
    while start > 0 && is_word_char(line.get_char(start - 1))
        invariant
            start <= col < len,
            len == line@.len(),
            forall|i: int| start <= i < col ==> #[trigger] word_char(line@[i]),
        decreases start,
    {
        start = start - 1;
    }
    let mut end = col;
    while end < len && is_word_char(line.get_char(end))
        invariant
            start <= col <= end <= len,
            len == line@.len(),
            forall|i: int| col <= i < end ==> #[trigger] word_char(line@[i]),
        decreases len - end,
    {
        end = end + 1;
    }
    (start, end)
}

} // verus!
