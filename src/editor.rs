use vstd::prelude::*;
use vstd::string::*;
use crate::cursor::{
    CursorController, CursorPosition, char_len, doc, min_int, moved, placed, max_scroll, scroll_for_visibility,
};
use crate::keys::{Direction, Key, KeyPress};
use crate::mouse::{MouseAction, TextSelection, find_word_boundaries, normalized, selected_text};
use crate::text::{insert_char_at, remove_range, substring, word_char};

verus! {

/// How many rows one step of the scroll wheel moves the page.
pub const SCROLL_STEP: usize = 3;

/// The editing state as a mathematical value.
pub struct EditorState {
    pub text: Seq<Seq<char>>,
    pub pos: CursorPosition,
    pub selection: Option<TextSelection>,
    pub scroll_offset: usize,
    pub modified: bool,
    pub quit_pending: bool,
}

/// At least one line, and the cursor inside the buffer.
pub open spec fn state_wf(v: EditorState) -> bool {
    &&& v.text.len() >= 1
    &&& v.pos.row < v.text.len()
    &&& v.pos.col <= v.text[v.pos.row as int].len()
}

/// What the control loop learns from one event: work for it to do, or a
/// status to report.
#[derive(Debug, Clone, Copy, PartialEq, Eq, Structural)]
pub enum EditorNotice {
    /// Nothing to report.
    Nothing,
    /// The buffer changed.
    Edited,
    /// Leave the editor.
    Quit,
    /// There are unsaved changes; asking to quit again confirms.
    UnsavedChanges,
    /// Save the buffer.
    Save,
    /// Show the dialog that opens a file.
    Open,
    /// Opening a file needs the changes saved first.
    SaveBeforeOpen,
    /// A new, empty buffer replaced the old one.
    NewFile,
    /// Starting a new file needs the changes saved first.
    SaveBeforeNew,
    ToggleHighlighting,
    ToggleLinting,
    ToggleLanguage,
    GoToLineUnavailable,
    DocumentStart,
    DocumentEnd,
    LineDuplicated,
    LineDeleted,
    LineCleared,
    /// The cursor was placed by a click at this screen position.
    CursorMoved { row: usize, col: usize },
    WordSelected,
    /// A drag selected this many characters.
    TextSelected { count: usize },
    /// A context menu at this document row and column, with or without selected text.
    ContextMenu { row: usize, col: usize, has_selection: bool },
    ScrolledUp,
    ScrolledDown,
    Selecting,
}

impl EditorNotice {
    /// Whether the change behind the notice is rendered at once, bypassing
    /// the render throttle: saving, opening, the toggles, and every gesture
    /// but a drag in progress.
    pub open spec fn forces_render_spec(&self) -> bool {
        match self {
            EditorNotice::Save | EditorNotice::Open | EditorNotice::ToggleHighlighting | EditorNotice::ToggleLinting
            | EditorNotice::ToggleLanguage | EditorNotice::CursorMoved { .. } | EditorNotice::WordSelected
            | EditorNotice::TextSelected { .. } | EditorNotice::ContextMenu { .. } | EditorNotice::ScrolledUp
            | EditorNotice::ScrolledDown => true,
            _ => false,
        }
    }

    pub fn forces_render(&self) -> (r: bool)
        ensures
            r == self.forces_render_spec(),
    {
        match self {
            EditorNotice::Save | EditorNotice::Open | EditorNotice::ToggleHighlighting | EditorNotice::ToggleLinting
            | EditorNotice::ToggleLanguage | EditorNotice::CursorMoved { .. } | EditorNotice::WordSelected
            | EditorNotice::TextSelected { .. } | EditorNotice::ContextMenu { .. } | EditorNotice::ScrolledUp
            | EditorNotice::ScrolledDown => true,
            _ => false,
        }
    }
}

/// The clamped rows and columns of a selection in the text `t`:
/// `(start_row, start_col, end_row, end_col)`.
pub open spec fn clamped_range(s: TextSelection, t: Seq<Seq<char>>) -> (int, int, int, int) {
    let last = t.len() - 1;
    let sr = min_int(s.start_row as int, last);
    let er = min_int(s.end_row as int, last);
    let sc = min_int(s.start_col as int, t[sr].len() as int);
    let ec = min_int(s.end_col as int, t[er].len() as int);
    (sr, sc, er, ec)
}

/// The text after a selection is cut out of it.
pub open spec fn without_selection(s: TextSelection, t: Seq<Seq<char>>) -> Seq<Seq<char>> {
    let (sr, sc, er, ec) = clamped_range(s, t);
    if sr >= er {
        let line = t[sr];
        let to = min_int(if ec > sc { ec } else { sc }, line.len() as int);
        t.update(sr, line.subrange(0, sc) + line.subrange(to, line.len() as int))
    } else {
        t.subrange(0, sr) + seq![t[sr].subrange(0, sc) + t[er].subrange(ec, t[er].len() as int)]
            + t.subrange(er + 1, t.len() as int)
    }
}

pub open spec fn insert_char_spec(v: EditorState, ch: char) -> EditorState {
    let (r, c) = (v.pos.row as int, v.pos.col as int);
    let line = v.text[r];
    EditorState {
        text: v.text.update(r, line.subrange(0, c).push(ch) + line.subrange(c, line.len() as int)),
        pos: CursorPosition { row: v.pos.row, col: (c + 1) as usize },
        modified: true,
        ..v
    }
}

pub open spec fn insert_newline_spec(v: EditorState) -> EditorState {
    let (r, c) = (v.pos.row as int, v.pos.col as int);
    let line = v.text[r];
    EditorState {
        text: v.text.update(r, line.subrange(0, c)).insert(r + 1, line.subrange(c, line.len() as int)),
        pos: CursorPosition { row: (r + 1) as usize, col: 0 },
        modified: true,
        ..v
    }
}

pub open spec fn delete_backward_spec(v: EditorState) -> EditorState {
    let (r, c) = (v.pos.row as int, v.pos.col as int);
    let t = v.text;
    if c > 0 {
        EditorState {
            text: t.update(r, t[r].subrange(0, c - 1) + t[r].subrange(c, t[r].len() as int)),
            pos: CursorPosition { row: v.pos.row, col: (c - 1) as usize },
            modified: true,
            ..v
        }
    } else if r > 0 {
        EditorState {
            text: t.update(r - 1, t[r - 1] + t[r]).remove(r),
            pos: CursorPosition { row: (r - 1) as usize, col: t[r - 1].len() as usize },
            modified: true,
            ..v
        }
    } else {
        v
    }
}

pub open spec fn delete_forward_spec(v: EditorState) -> EditorState {
    let (r, c) = (v.pos.row as int, v.pos.col as int);
    let t = v.text;
    if c < t[r].len() {
        EditorState { text: t.update(r, t[r].subrange(0, c) + t[r].subrange(c + 1, t[r].len() as int)), modified: true, ..v }
    } else if r < t.len() - 1 {
        EditorState { text: t.update(r, t[r] + t[r + 1]).remove(r + 1), modified: true, ..v }
    } else {
        v
    }
}

pub open spec fn delete_selection_spec(v: EditorState) -> EditorState {
    match v.selection {
        Some(s) => {
            let (sr, sc, er, ec) = clamped_range(s, v.text);
            EditorState {
                text: without_selection(s, v.text),
                pos: CursorPosition { row: sr as usize, col: sc as usize },
                selection: None,
                modified: true,
                ..v
            }
        },
        None => v,
    }
}

pub open spec fn duplicate_line_spec(v: EditorState) -> EditorState {
    let r = v.pos.row as int;
    EditorState {
        text: v.text.insert(r + 1, v.text[r]),
        pos: CursorPosition { row: (r + 1) as usize, col: v.pos.col },
        modified: true,
        ..v
    }
}

pub open spec fn delete_line_spec(v: EditorState) -> EditorState {
    let r = v.pos.row as int;
    let n = v.text.len();
    if n > 1 {
        EditorState {
            text: v.text.remove(r),
            pos: CursorPosition { row: min_int(r, n - 2) as usize, col: 0 },
            modified: true,
            ..v
        }
    } else {
        EditorState { text: seq![Seq::<char>::empty()], pos: CursorPosition { row: 0, col: 0 }, modified: true, ..v }
    }
}

/// `w` is `v` with the word around screen position `(row, col)` selected
/// and the cursor at the end of the word; a row past the end of the
/// document is clamped to the last line.
pub open spec fn word_selected(v: EditorState, w: EditorState, row: int, col: int) -> bool {
    let r = min_int(row + v.scroll_offset, v.text.len() - 1);
    if v.text.len() > 0 {
        let line = v.text[r];
        let c = min_int(col, line.len() as int);
        let s = w.selection->0;
        &&& w.selection is Some
        &&& s.start_row == r && s.end_row == r
        &&& s.start_col <= c <= s.end_col <= line.len()
        &&& (c < line.len() ==> {
            &&& forall|i: int| s.start_col <= i < s.end_col ==> #[trigger] word_char(line[i])
            &&& (s.start_col == 0 || !word_char(line[s.start_col - 1]))
            &&& (s.end_col == line.len() || !word_char(line[s.end_col as int]))
        })
        &&& (c == line.len() ==> s.start_col == c && s.end_col == c)
        &&& w == EditorState { selection: w.selection, pos: CursorPosition { row: r as usize, col: s.end_col }, ..v }
    } else {
        w == v
    }
}

/// One wheel step up on a page of `height` rows, kept within
/// `[0, max(0, total - height)]`.
pub open spec fn scroll_up_spec(v: EditorState, height: int) -> EditorState {
    let up = if v.scroll_offset >= SCROLL_STEP { v.scroll_offset - SCROLL_STEP } else { 0 };
    EditorState { scroll_offset: min_int(up, max_scroll(height, v.text.len() as int)) as usize, ..v }
}

/// One wheel step down on a page of `height` rows, kept within
/// `[0, max(0, total - height)]`.
pub open spec fn scroll_down_spec(v: EditorState, height: int) -> EditorState {
    EditorState {
        scroll_offset: min_int(v.scroll_offset + SCROLL_STEP, max_scroll(height, v.text.len() as int)) as usize,
        ..v
    }
}

/// A key press clears the selection unless Control or Shift is held.
pub open spec fn clears_selection(press: KeyPress) -> bool {
    !press.control && !press.shift
}

/// The state and notice after a key press.
pub open spec fn key_step(v: EditorState, press: KeyPress) -> (EditorState, EditorNotice) {
    let v0 = EditorState {
        selection: if clears_selection(press) { None } else { v.selection },
        quit_pending: false,
        ..v
    };
    if press.control {
        match press.key {
            Key::Char('q') => if v.modified && !v.quit_pending {
                (EditorState { quit_pending: true, ..v0 }, EditorNotice::UnsavedChanges)
            } else {
                (v0, EditorNotice::Quit)
            },
            Key::Char('s') => (v0, EditorNotice::Save),
            Key::Char('o') => if v.modified { (v0, EditorNotice::SaveBeforeOpen) } else { (v0, EditorNotice::Open) },
            Key::Char('h') => (v0, EditorNotice::ToggleHighlighting),
            Key::Char('e') => (v0, EditorNotice::ToggleLinting),
            Key::Char('t') => (v0, EditorNotice::ToggleLanguage),
            Key::Char('l') => (v0, EditorNotice::GoToLineUnavailable),
            Key::Char('n') => if v.modified {
                (v0, EditorNotice::SaveBeforeNew)
            } else {
                (
                    EditorState {
                        text: seq![Seq::<char>::empty()],
                        pos: CursorPosition { row: 0, col: 0 },
                        selection: None,
                        scroll_offset: 0,
                        modified: false,
                        quit_pending: false,
                    },
                    EditorNotice::NewFile,
                )
            },
            Key::Home => (EditorState { pos: CursorPosition { row: 0, col: 0 }, ..v0 }, EditorNotice::DocumentStart),
            Key::End => (
                EditorState {
                    pos: CursorPosition { row: (v.text.len() - 1) as usize, col: v.text[v.text.len() - 1].len() as usize },
                    ..v0
                },
                EditorNotice::DocumentEnd,
            ),
            Key::Char('d') => if v.text.len() < usize::MAX {
                (duplicate_line_spec(v0), EditorNotice::LineDuplicated)
            } else {
                (v0, EditorNotice::Nothing)
            },
            Key::Char('k') => if v.text.len() > 1 {
                (delete_line_spec(v0), EditorNotice::LineDeleted)
            } else {
                (delete_line_spec(v0), EditorNotice::LineCleared)
            },
            _ => (v0, EditorNotice::Nothing),
        }
    } else {
        match press.key {
            Key::Char(ch) => {
                let v1 = delete_selection_spec(v0);
                if v1.text[v1.pos.row as int].len() < usize::MAX {
                    (insert_char_spec(v1, ch), EditorNotice::Edited)
                } else if v0.selection is Some {
                    (v1, EditorNotice::Edited)
                } else {
                    (v1, EditorNotice::Nothing)
                }
            },
            Key::Enter => {
                let v1 = delete_selection_spec(v0);
                if v1.text.len() < usize::MAX {
                    (insert_newline_spec(v1), EditorNotice::Edited)
                } else if v0.selection is Some {
                    (v1, EditorNotice::Edited)
                } else {
                    (v1, EditorNotice::Nothing)
                }
            },
            Key::Backspace => if v0.selection is Some {
                (delete_selection_spec(v0), EditorNotice::Edited)
            } else if v0.pos.row > 0 || v0.pos.col > 0 {
                (delete_backward_spec(v0), EditorNotice::Edited)
            } else {
                (v0, EditorNotice::Nothing)
            },
            Key::Delete => if v0.selection is Some {
                (delete_selection_spec(v0), EditorNotice::Edited)
            } else if v0.pos.col < v0.text[v0.pos.row as int].len() || v0.pos.row < v0.text.len() - 1 {
                (delete_forward_spec(v0), EditorNotice::Edited)
            } else {
                (v0, EditorNotice::Nothing)
            },
            Key::Home => (EditorState { pos: CursorPosition { row: v.pos.row, col: 0 }, ..v0 }, EditorNotice::Nothing),
            Key::End => (
                EditorState { pos: CursorPosition { row: v.pos.row, col: v.text[v.pos.row as int].len() as usize }, ..v0 },
                EditorNotice::Nothing,
            ),
            Key::Up => (EditorState { pos: moved(v.pos, Direction::Up, v.text), ..v0 }, EditorNotice::Nothing),
            Key::Down => (EditorState { pos: moved(v.pos, Direction::Down, v.text), ..v0 }, EditorNotice::Nothing),
            Key::Left => (EditorState { pos: moved(v.pos, Direction::Left, v.text), ..v0 }, EditorNotice::Nothing),
            Key::Right => (EditorState { pos: moved(v.pos, Direction::Right, v.text), ..v0 }, EditorNotice::Nothing),
            Key::Other => (v0, EditorNotice::Nothing),
        }
    }
}

/// `(w, r)` is the state and notice after gesture `action` on a page of
/// `height` rows; `lines` is the buffer of `v`. Gesture positions are screen
/// positions; they are mapped to document rows by adding the scroll offset.
pub open spec fn mouse_step(
    v: EditorState,
    lines: Seq<String>,
    action: MouseAction,
    height: int,
    w: EditorState,
    r: EditorNotice,
) -> bool {
    let scroll = v.scroll_offset as int;
    match action {
        MouseAction::Click { row, col } => {
            &&& w == EditorState { pos: placed(v.pos, row as int, col as int, scroll, v.text), selection: None, ..v }
            &&& r == EditorNotice::CursorMoved { row, col }
        },
        MouseAction::DoubleClick { row, col } => {
            &&& word_selected(v, w, row as int, col as int)
            &&& r == EditorNotice::WordSelected
        },
        MouseAction::DragEnd { start_row, start_col, end_row, end_col } => {
            if start_row + scroll <= usize::MAX && end_row + scroll <= usize::MAX {
                let sel = normalized((start_row + scroll) as usize, start_col, (end_row + scroll) as usize, end_col);
                &&& w == EditorState { pos: placed(v.pos, end_row as int, end_col as int, scroll, v.text), selection: Some(sel), ..v }
                &&& r == EditorNotice::TextSelected { count: selected_text(sel, lines).len() as usize }
            } else {
                &&& w == v
                &&& r == EditorNotice::Nothing
            }
        },
        MouseAction::RightClick { row, col } => {
            &&& w == EditorState { pos: placed(v.pos, row as int, col as int, scroll, v.text), ..v }
            &&& r == EditorNotice::ContextMenu {
                row: min_int(row + scroll, usize::MAX as int) as usize,
                col,
                has_selection: v.selection is Some && selected_text(v.selection->0, lines).len() > 0,
            }
        },
        MouseAction::ScrollUp => {
            &&& w == scroll_up_spec(v, height)
            &&& r == EditorNotice::ScrolledUp
        },
        MouseAction::ScrollDown => {
            &&& w == scroll_down_spec(v, height)
            &&& r == EditorNotice::ScrolledDown
        },
        MouseAction::Drag { current_row, current_col, .. } => {
            &&& w == EditorState { pos: placed(v.pos, current_row as int, current_col as int, scroll, v.text), ..v }
            &&& r == EditorNotice::Selecting
        },
        MouseAction::NoAction => {
            &&& w == v
            &&& r == EditorNotice::Nothing
        },
    }
}

/// Removes `count` lines starting at line `from`.
fn remove_rows(lines: &mut Vec<String>, from: usize, count: usize)
    requires
        from + count <= old(lines)@.len(),
    ensures
        final(lines)@ == old(lines)@.subrange(0, from as int) + old(lines)@.subrange(from + count, old(lines)@.len() as int),
{
    let ghost old_lines = lines@;
    let mut k: usize = 0;
    while k < count
        invariant
            from + count <= old_lines.len(),
            k <= count,
            lines@ =~= old_lines.subrange(0, from as int) + old_lines.subrange(from + k, old_lines.len() as int),
        decreases count - k,
    {
        lines.remove(from);
        k = k + 1;
    }
}

/// The in-memory editing state: the buffer of lines, the cursor, the
/// selection, the scroll offset of the page, and whether a quit waits for
/// confirmation.
pub struct Editor {
    pub lines: Vec<String>,
    pub cursor: CursorController,
    pub selection: Option<TextSelection>,
    pub scroll_offset: usize,
    pub modified: bool,
    pub quit_pending: bool,
}

impl Editor {
    pub open spec fn state(&self) -> EditorState {
        EditorState {
            text: doc(self.lines@),
            pos: self.cursor.position,
            selection: self.selection,
            scroll_offset: self.scroll_offset,
            modified: self.modified,
            quit_pending: self.quit_pending,
        }
    }

    /// The buffer holds at least one line and the cursor lies inside it.
    pub open spec fn wf(&self) -> bool {
        state_wf(self.state())
    }

    /// An empty document: one empty line, cursor at its start.
    pub fn new() -> (r: Self)
        ensures
            r.wf(),
            r.state() == (EditorState {
                text: seq![Seq::<char>::empty()],
                pos: CursorPosition { row: 0, col: 0 },
                selection: None,
                scroll_offset: 0,
                modified: false,
                quit_pending: false,
            }),
    {
        let mut lines: Vec<String> = Vec::new();
        lines.push(String::new());
        let r = Editor {
            lines,
            cursor: CursorController::new(),
            selection: None,
            scroll_offset: 0,
            modified: false,
            quit_pending: false,
        };
        assert(r.state().text =~= seq![Seq::<char>::empty()]);
        r
    }

    /// A document holding `lines`; with no lines, one empty line.
    pub fn from_lines(lines: Vec<String>) -> (r: Self)
        ensures
            r.wf(),
            r.state().text == if lines@.len() > 0 { doc(lines@) } else { seq![Seq::<char>::empty()] },
            r.state().pos == (CursorPosition { row: 0, col: 0 }),
            r.state().selection is None,
            r.state().scroll_offset == 0,
            !r.state().modified,
            !r.state().quit_pending,
    {
        if lines.len() == 0 {
            return Editor::new();
        }
        Editor { lines, cursor: CursorController::new(), selection: None, scroll_offset: 0, modified: false, quit_pending: false }
    }

    /// Inserts `ch` at the cursor; the cursor moves past it.
    pub fn insert_char(&mut self, ch: char)
        requires
            old(self).wf(),
            old(self).state().text[old(self).state().pos.row as int].len() < usize::MAX,
        ensures
            final(self).wf(),
            final(self).state() == insert_char_spec(old(self).state(), ch),
    {
        let row = self.cursor.row();
        let col = self.cursor.col();
        let new_line = insert_char_at(self.lines[row].as_str(), col, ch);
        self.lines[row] = new_line;
        self.cursor.set_position(row, col + 1);
        self.modified = true;
        assert(self.state().text =~= insert_char_spec(old(self).state(), ch).text);
    }

    /// Splits the line at the cursor; the cursor moves to the start of the new line.
    pub fn insert_newline(&mut self)
        requires
            old(self).wf(),
            old(self).lines@.len() < usize::MAX,
        ensures
            final(self).wf(),
            final(self).state() == insert_newline_spec(old(self).state()),
    {
        let row = self.cursor.row();
        let col = self.cursor.col();
        let len = char_len(&self.lines[row]);
        let left = substring(self.lines[row].as_str(), 0, col);
        let right = substring(self.lines[row].as_str(), col, len);
        self.lines[row] = left;
        self.lines.insert(row + 1, right);
        self.cursor.set_position(row + 1, 0);
        self.modified = true;
        assert(self.state().text =~= insert_newline_spec(old(self).state()).text);
    }

    /// Deletes the character before the cursor, or joins the line onto the
    /// previous one when the cursor is at its start.
    pub fn delete_backward(&mut self)
        requires
            old(self).wf(),
        ensures
            final(self).wf(),
            final(self).state() == delete_backward_spec(old(self).state()),
    {
        let row = self.cursor.row();
        let col = self.cursor.col();
        if col > 0 {
            let new_line = remove_range(self.lines[row].as_str(), col - 1, col);
            self.lines[row] = new_line;
            self.cursor.set_position(row, col - 1);
            self.modified = true;
            assert(self.state().text =~= delete_backward_spec(old(self).state()).text);
        } else if row > 0 {
            let current = self.lines.remove(row);
            let prev_len = char_len(&self.lines[row - 1]);
            let mut joined = self.lines[row - 1].clone();
            joined.append(current.as_str());
            self.lines[row - 1] = joined;
            self.cursor.set_position(row - 1, prev_len);
            self.modified = true;
            assert(self.state().text =~= delete_backward_spec(old(self).state()).text);
        }
    }

    /// Deletes the character under the cursor, or joins the next line onto
    /// this one when the cursor is at its end.
    pub fn delete_forward(&mut self)
        requires
            old(self).wf(),
        ensures
            final(self).wf(),
            final(self).state() == delete_forward_spec(old(self).state()),
    {
        let row = self.cursor.row();
        let col = self.cursor.col();
        let len = char_len(&self.lines[row]);
        if col < len {
            let new_line = remove_range(self.lines[row].as_str(), col, col + 1);
            self.lines[row] = new_line;
            self.modified = true;
            assert(self.state().text =~= delete_forward_spec(old(self).state()).text);
        } else if row < self.lines.len() - 1 {
            let next = self.lines.remove(row + 1);
            let mut joined = self.lines[row].clone();
            joined.append(next.as_str());
            self.lines[row] = joined;
            self.modified = true;
            assert(self.state().text =~= delete_forward_spec(old(self).state()).text);
        }
    }

    /// Moves the cursor one step; returns whether it moved.
    pub fn move_cursor(&mut self, direction: Direction) -> (changed: bool)
        requires
            old(self).wf(),
        ensures
            final(self).wf(),
            final(self).state() == (EditorState { pos: moved(old(self).state().pos, direction, old(self).state().text), ..old(self).state() }),
            changed == (final(self).state().pos != old(self).state().pos),
    {
        self.cursor.move_cursor(direction, self.lines.as_slice())
    }

    /// Places the cursor at screen position `(row, col)` of the page.
    pub fn move_cursor_to_position(&mut self, row: usize, col: usize)
        requires
            old(self).wf(),
        ensures
            final(self).wf(),
            final(self).state() == (EditorState {
                pos: placed(old(self).state().pos, row as int, col as int, old(self).scroll_offset as int, old(self).state().text),
                ..old(self).state()
            }),
    {
        let scroll_offset = self.scroll_offset;
        self.cursor.move_to_position(row, col, scroll_offset, self.lines.as_slice());
    }

    /// Cuts the selected text out of the buffer, the selection clamped into
    /// it first, and puts the cursor where the selection started. Without a
    /// selection nothing changes.
    pub fn delete_selected_text(&mut self)
        requires
            old(self).wf(),
        ensures
            final(self).wf(),
            final(self).state() == delete_selection_spec(old(self).state()),
    {
        let s = match self.selection {
            Some(s) => s,
            None => return,
        };
        let ghost t = self.state().text;
        let n = self.lines.len();
        let sr = if s.start_row < n - 1 { s.start_row } else { n - 1 };
        let er = if s.end_row < n - 1 { s.end_row } else { n - 1 };
        let start_len = char_len(&self.lines[sr]);
        let end_len = char_len(&self.lines[er]);
        let sc = if s.start_col < start_len { s.start_col } else { start_len };
        let ec = if s.end_col < end_len { s.end_col } else { end_len };
        assert(t[sr as int] == self.lines@[sr as int]@);
        assert(t[er as int] == self.lines@[er as int]@);
        if sr >= er {
            let to0 = if ec > sc { ec } else { sc };
            let to = if to0 < start_len { to0 } else { start_len };
            let new_line = remove_range(self.lines[sr].as_str(), sc, to);
            self.lines[sr] = new_line;
            assert(self.state().text =~= without_selection(s, t));
        } else {
            let prefix = substring(self.lines[sr].as_str(), 0, sc);
            let suffix = substring(self.lines[er].as_str(), ec, end_len);
            let mut joined = prefix;
            joined.append(suffix.as_str());
            let ghost old_lines = self.lines@;
            remove_rows(&mut self.lines, sr + 1, er - sr);
            self.lines[sr] = joined;
            assert(self.lines@ =~= old_lines.subrange(0, sr as int) + seq![joined] + old_lines.subrange(er + 1, n as int));
            assert(self.state().text =~= without_selection(s, t));
        }
        self.cursor.set_position(sr, sc);
        self.selection = None;
        self.modified = true;
    }

    /// Selects the word at screen position `(row, col)` of the page and puts
    /// the cursor at its end. A row past the end of the document is clamped
    /// to the last line.
    pub fn select_word_at_position(&mut self, row: usize, col: usize)
        requires
            old(self).wf(),
        ensures
            final(self).wf(),
            word_selected(old(self).state(), final(self).state(), row as int, col as int),
    {
        let n = self.lines.len();
        let actual_row = if row < n && self.scroll_offset < n - row { row + self.scroll_offset } else { n - 1 };
        let line = self.lines[actual_row].as_str();
        let len = line.unicode_len();
        let c = if col < len { col } else { len };
        let (start_col, end_col) = find_word_boundaries(line, c);
        assert(self.state().text[actual_row as int] == self.lines@[actual_row as int]@);
        self.selection = Some(TextSelection::new(actual_row, start_col, actual_row, end_col));
        self.cursor.set_position(actual_row, end_col);
    }

    /// Inserts a copy of the cursor line below it; the cursor moves onto the copy.
    pub fn duplicate_line(&mut self)
        requires
            old(self).wf(),
            old(self).lines@.len() < usize::MAX,
        ensures
            final(self).wf(),
            final(self).state() == duplicate_line_spec(old(self).state()),
    {
        let row = self.cursor.row();
        let copy = self.lines[row].clone();
        self.lines.insert(row + 1, copy);
        let col = self.cursor.col();
        self.cursor.set_position(row + 1, col);
        self.modified = true;
        assert(self.state().text =~= duplicate_line_spec(old(self).state()).text);
    }

    /// Removes the cursor line, or empties it when it is the only one; the
    /// cursor moves to the start of the line that takes its place.
    pub fn delete_line(&mut self)
        requires
            old(self).wf(),
        ensures
            final(self).wf(),
            final(self).state() == delete_line_spec(old(self).state()),
    {
        let row = self.cursor.row();
        if self.lines.len() > 1 {
            self.lines.remove(row);
            let new_row = if row >= self.lines.len() { self.lines.len() - 1 } else { row };
            self.cursor.set_position(new_row, 0);
        } else {
            self.lines[0] = String::new();
            self.cursor.set_position(0, 0);
        }
        self.modified = true;
        assert(self.state().text =~= delete_line_spec(old(self).state()).text);
    }

    /// Scrolls the page up by one wheel step on a page of `height` rows,
    /// stopping at the top, and never past `max(0, total - height)`.
    pub fn scroll_up(&mut self, height: usize)
        requires
            old(self).wf(),
        ensures
            final(self).wf(),
            final(self).state() == scroll_up_spec(old(self).state(), height as int),
    {
        let n = self.lines.len();
        let max_offset = if n > height { n - height } else { 0 };
        let up = if self.scroll_offset >= SCROLL_STEP { self.scroll_offset - SCROLL_STEP } else { 0 };
        self.scroll_offset = if up < max_offset { up } else { max_offset };
    }

    /// Scrolls the page down by one wheel step on a page of `height` rows,
    /// never past `max(0, total - height)`.
    pub fn scroll_down(&mut self, height: usize)
        requires
            old(self).wf(),
        ensures
            final(self).wf(),
            final(self).state() == scroll_down_spec(old(self).state(), height as int),
    {
        let n = self.lines.len();
        let max_offset = if n > height { n - height } else { 0 };
        self.scroll_offset = if self.scroll_offset < max_offset && max_offset - self.scroll_offset > SCROLL_STEP {
            self.scroll_offset + SCROLL_STEP
        } else {
            max_offset
        };
    }

    /// Scrolls so that the cursor row is on a page of `height` rows.
    pub fn keep_cursor_visible(&mut self, height: usize)
        requires
            old(self).wf(),
        ensures
            final(self).wf(),
            final(self).state() == (EditorState {
                scroll_offset: scroll_for_visibility(
                    old(self).state().pos.row as int,
                    old(self).scroll_offset as int,
                    height as int,
                    old(self).lines@.len() as int,
                ) as usize,
                ..old(self).state()
            }),
    {
        let n = self.lines.len();
        self.scroll_offset = self.cursor.adjust_scroll_for_visibility(self.scroll_offset, height, n);
    }

    /// Records that the buffer was saved.
    pub fn mark_saved(&mut self)
        requires
            old(self).wf(),
        ensures
            final(self).wf(),
            final(self).state() == (EditorState { modified: false, ..old(self).state() }),
    {
        self.modified = false;
    }

    /// Applies a gesture on a page of `height` rows and tells the control
    /// loop what follows from it.
    pub fn handle_mouse_action(&mut self, action: MouseAction, height: usize) -> (r: EditorNotice)
        requires
            old(self).wf(),
        ensures
            final(self).wf(),
            mouse_step(old(self).state(), old(self).lines@, action, height as int, final(self).state(), r),
    {
        match action {
            MouseAction::Click { row, col } => {
                self.move_cursor_to_position(row, col);
                self.selection = None;
                EditorNotice::CursorMoved { row, col }
            },
            MouseAction::DoubleClick { row, col } => {
                self.select_word_at_position(row, col);
                EditorNotice::WordSelected
            },
            MouseAction::DragEnd { start_row, start_col, end_row, end_col } => {
                let scroll = self.scroll_offset;
                if start_row <= usize::MAX - scroll && end_row <= usize::MAX - scroll {
                    let sel = TextSelection::new(start_row + scroll, start_col, end_row + scroll, end_col);
                    let text = sel.get_selected_text(self.lines.as_slice());
                    let count = text.as_str().unicode_len();
                    self.move_cursor_to_position(end_row, end_col);
                    self.selection = Some(sel);
                    EditorNotice::TextSelected { count }
                } else {
                    EditorNotice::Nothing
                }
            },
            MouseAction::RightClick { row, col } => {
                let has_selection = match self.selection {
                    Some(s) => s.get_selected_text(self.lines.as_slice()).as_str().unicode_len() > 0,
                    None => false,
                };
                let scroll = self.scroll_offset;
                let actual_row = if row <= usize::MAX - scroll { row + scroll } else { usize::MAX };
                self.move_cursor_to_position(row, col);
                EditorNotice::ContextMenu { row: actual_row, col, has_selection }
            },
            MouseAction::ScrollUp => {
                self.scroll_up(height);
                EditorNotice::ScrolledUp
            },
            MouseAction::ScrollDown => {
                self.scroll_down(height);
                EditorNotice::ScrolledDown
            },
            MouseAction::Drag { current_row, current_col, .. } => {
                self.move_cursor_to_position(current_row, current_col);
                EditorNotice::Selecting
            },
            MouseAction::NoAction => EditorNotice::Nothing,
        }
    }

    /// Applies a key press and tells the control loop what follows from it.
    pub fn handle_key_event(&mut self, press: KeyPress) -> (r: EditorNotice)
        requires
            old(self).wf(),
        ensures
            final(self).wf(),
            (final(self).state(), r) == key_step(old(self).state(), press),
    {
        let was_pending = self.quit_pending;
        self.quit_pending = false;
        if !press.control && !press.shift {
            self.selection = None;
        }
        if press.control {
            match press.key {
                Key::Char('q') => {
                    if self.modified && !was_pending {
                        self.quit_pending = true;
                        EditorNotice::UnsavedChanges
                    } else {
                        EditorNotice::Quit
                    }
                },
                Key::Char('s') => EditorNotice::Save,
                Key::Char('o') => if self.modified { EditorNotice::SaveBeforeOpen } else { EditorNotice::Open },
                Key::Char('h') => EditorNotice::ToggleHighlighting,
                Key::Char('e') => EditorNotice::ToggleLinting,
                Key::Char('t') => EditorNotice::ToggleLanguage,
                Key::Char('l') => EditorNotice::GoToLineUnavailable,
                Key::Char('n') => {
                    if self.modified {
                        EditorNotice::SaveBeforeNew
                    } else {
                        *self = Editor::new();
                        EditorNotice::NewFile
                    }
                },
                Key::Home => {
                    self.cursor.move_to_document_start();
                    EditorNotice::DocumentStart
                },
                Key::End => {
                    self.cursor.move_to_document_end(self.lines.as_slice());
                    EditorNotice::DocumentEnd
                },
                Key::Char('d') => {
                    if self.lines.len() < usize::MAX {
                        self.duplicate_line();
                        EditorNotice::LineDuplicated
                    } else {
                        EditorNotice::Nothing
                    }
                },
                Key::Char('k') => {
                    let several = self.lines.len() > 1;
                    self.delete_line();
                    if several { EditorNotice::LineDeleted } else { EditorNotice::LineCleared }
                },
                _ => EditorNotice::Nothing,
            }
        } else {
            match press.key {
                Key::Char(ch) => {
                    let had_selection = self.selection.is_some();
                    self.delete_selected_text();
                    let row = self.cursor.row();
                    if char_len(&self.lines[row]) < usize::MAX {
                        self.insert_char(ch);
                        EditorNotice::Edited
                    } else if had_selection {
                        EditorNotice::Edited
                    } else {
                        EditorNotice::Nothing
                    }
                },
                Key::Enter => {
                    let had_selection = self.selection.is_some();
                    self.delete_selected_text();
                    if self.lines.len() < usize::MAX {
                        self.insert_newline();
                        EditorNotice::Edited
                    } else if had_selection {
                        EditorNotice::Edited
                    } else {
                        EditorNotice::Nothing
                    }
                },
                Key::Backspace => {
                    if self.selection.is_some() {
                        self.delete_selected_text();
                        EditorNotice::Edited
                    } else if self.cursor.row() > 0 || self.cursor.col() > 0 {
                        self.delete_backward();
                        EditorNotice::Edited
                    } else {
                        EditorNotice::Nothing
                    }
                },
                Key::Delete => {
                    if self.selection.is_some() {
                        self.delete_selected_text();
                        EditorNotice::Edited
                    } else {
                        let row = self.cursor.row();
                        if self.cursor.col() < char_len(&self.lines[row]) || row < self.lines.len() - 1 {
                            self.delete_forward();
                            EditorNotice::Edited
                        } else {
                            EditorNotice::Nothing
                        }
                    }
                },
                Key::Home => {
                    self.cursor.move_to_line_start();
                    EditorNotice::Nothing
                },
                Key::End => {
                    self.cursor.move_to_line_end(self.lines.as_slice());
                    EditorNotice::Nothing
                },
                Key::Up => {
                    self.move_cursor(Direction::Up);
                    EditorNotice::Nothing
                },
                Key::Down => {
                    self.move_cursor(Direction::Down);
                    EditorNotice::Nothing
                },
                Key::Left => {
                    self.move_cursor(Direction::Left);
                    EditorNotice::Nothing
                },
                Key::Right => {
                    self.move_cursor(Direction::Right);
                    EditorNotice::Nothing
                },
                Key::Other => EditorNotice::Nothing,
            }
        }
    }
}

} // verus!
