use vstd::prelude::*;
use vstd::string::*;
use crate::keys::Direction;

verus! {

/// Number of characters (code points) of line `row`.
pub open spec fn line_len(lines: Seq<String>, row: int) -> int {
    lines[row]@.len() as int
}

/// The document as sequences of characters, one per line.
pub open spec fn doc(lines: Seq<String>) -> Seq<Seq<char>> {
    lines.map_values(|s: String| s@)
}

pub open spec fn min_int(a: int, b: int) -> int {
    if a < b { a } else { b }
}

/// Cursor position, row and column counted in characters.
#[derive(Debug, Clone, Copy, PartialEq, Eq, Structural)]
pub struct CursorPosition {
    pub row: usize,
    pub col: usize,
}

/// A position lies inside the buffer.
pub open spec fn position_in_bounds(p: CursorPosition, lines: Seq<String>) -> bool {
    &&& p.row < lines.len()
    &&& p.col <= line_len(lines, p.row as int)
}

/// Where a cursor at `p` lands after one step in direction `d`.
pub open spec fn moved(p: CursorPosition, d: Direction, t: Seq<Seq<char>>) -> CursorPosition {
    let r = p.row as int;
    let c = p.col as int;
    match d {
        Direction::Up => if r > 0 {
            CursorPosition { row: (r - 1) as usize, col: min_int(c, t[r - 1].len() as int) as usize }
        } else {
            p
        },
        Direction::Down => if r < t.len() - 1 {
            CursorPosition { row: (r + 1) as usize, col: min_int(c, t[r + 1].len() as int) as usize }
        } else {
            p
        },
        Direction::Left => if c > 0 {
            CursorPosition { row: p.row, col: (c - 1) as usize }
        } else if r > 0 {
            CursorPosition { row: (r - 1) as usize, col: t[r - 1].len() as usize }
        } else {
            p
        },
        Direction::Right => if c < t[r].len() {
            CursorPosition { row: p.row, col: (c + 1) as usize }
        } else if r < t.len() - 1 {
            CursorPosition { row: (r + 1) as usize, col: 0 }
        } else {
            p
        },
    }
}

/// The position after re-clamping `p` into the buffer: the row to the last
/// line, then the column to the length of that line.
pub open spec fn validated(p: CursorPosition, t: Seq<Seq<char>>) -> CursorPosition {
    let row: usize = if p.row >= t.len() {
        if t.len() == 0 { 0 } else { (t.len() - 1) as usize }
    } else {
        p.row
    };
    let col: usize = if row < t.len() && p.col > t[row as int].len() {
        t[row as int].len() as usize
    } else {
        p.col
    };
    CursorPosition { row, col }
}

/// One step of a cursor that may lie outside the buffer: a row past the
/// end is first clamped into the buffer; in an empty buffer nothing moves.
pub open spec fn step(p: CursorPosition, d: Direction, t: Seq<Seq<char>>) -> CursorPosition {
    if t.len() == 0 {
        p
    } else if p.row >= t.len() {
        moved(validated(p, t), d, t)
    } else {
        moved(p, d, t)
    }
}

/// Where a click at screen row `row`, column `col` of a page scrolled to
/// `scroll_offset` puts a cursor at `p`: the document row `row +
/// scroll_offset` clamped to the last line, and the column clamped to that
/// line. In an empty buffer the cursor stays where it is.
pub open spec fn placed(p: CursorPosition, row: int, col: int, scroll_offset: int, t: Seq<Seq<char>>) -> CursorPosition {
    if t.len() == 0 {
        p
    } else {
        let r = min_int(row + scroll_offset, t.len() - 1);
        CursorPosition { row: r as usize, col: min_int(col, t[r].len() as int) as usize }
    }
}
/// The largest scroll offset that still fills the page: `max(0, total - height)`.
pub open spec fn max_scroll(height: int, total_lines: int) -> int {
    if total_lines > height { total_lines - height } else { 0 }
}

/// The scroll offset that brings `row` into a page of `height` rows.
pub open spec fn scroll_for_visibility(row: int, offset: int, height: int, total_lines: int) -> int {
    let wanted = if row < offset {
        row
    } else if row >= offset + height {
        if row - height + 1 > 0 { row - height + 1 } else { 0 }
    } else {
        offset
    };
    min_int(wanted, max_scroll(height, total_lines))
}

impl CursorPosition {
    /// The origin: first row, first column.
    pub open spec fn zero_spec() -> CursorPosition {
        CursorPosition { row: 0, col: 0 }
    }

    pub fn new(row: usize, col: usize) -> (r: Self)
        ensures
            r.row == row,
            r.col == col,
    {
        CursorPosition { row, col }
    }

    pub fn zero() -> (r: Self)
        ensures
            r.row == 0,
            r.col == 0,
    {
        CursorPosition { row: 0, col: 0 }
    }
}

/// Number of characters of a line.
pub fn char_len(s: &String) -> (r: usize)
    ensures
        r == s@.len(),
{
    s.as_str().unicode_len()
}

/// Cursor controller for managing cursor movement and positioning.
pub struct CursorController {
    pub position: CursorPosition,
}

impl CursorController {
    pub fn new() -> (r: Self)
        ensures
            r.position == CursorPosition::zero_spec(),
    {
        CursorController { position: CursorPosition::zero() }
    }

    pub fn with_position(row: usize, col: usize) -> (r: Self)
        ensures
            r.position.row == row,
            r.position.col == col,
    {
        CursorController { position: CursorPosition::new(row, col) }
    }

    /// Current cursor position.
    pub fn position(&self) -> (r: &CursorPosition)
        ensures
            *r == self.position,
    {
        &self.position
    }

    /// Current cursor row.
    pub fn row(&self) -> (r: usize)
        ensures
            r == self.position.row,
    {
        self.position.row
    }

    /// Current cursor column.
    pub fn col(&self) -> (r: usize)
        ensures
            r == self.position.col,
    {
        self.position.col
    }

    /// Sets the cursor position directly.
    pub fn set_position(&mut self, row: usize, col: usize)
        ensures
            final(self).position.row == row,
            final(self).position.col == col,
    {
        self.position.row = row;
        self.position.col = col;
    }

    /// Moves the cursor one step; returns whether the position changed.
    pub fn move_cursor(&mut self, direction: Direction, lines: &[String]) -> (changed: bool)
        ensures
            final(self).position == step(old(self).position, direction, doc(lines@)),
            position_in_bounds(old(self).position, lines@) ==> position_in_bounds(final(self).position, lines@),
            old(self).position.row >= lines@.len() && lines@.len() > 0 ==> position_in_bounds(final(self).position, lines@),
            changed == (final(self).position != old(self).position),
    {
        let old_position = self.position;
        if lines.len() == 0 {
            return false;
        }
        if self.position.row >= lines.len() {
            self.validate_position(lines);
        }
        let row = self.position.row;
        match direction {
            Direction::Up => {
                if row > 0 {
                    let line_len = char_len(&lines[row - 1]);
                    self.position.row = row - 1;
                    if self.position.col > line_len {
                        self.position.col = line_len;
                    }
                }
            },
            Direction::Down => {
                if row < lines.len() - 1 {
                    let line_len = char_len(&lines[row + 1]);
                    self.position.row = row + 1;
                    if self.position.col > line_len {
                        self.position.col = line_len;
                    }
                }
            },
            Direction::Left => {
                if self.position.col > 0 {
                    self.position.col = self.position.col - 1;
                } else if row > 0 {
                    self.position.row = row - 1;
                    self.position.col = char_len(&lines[row - 1]);
                }
            },
            Direction::Right => {
                let line_len = char_len(&lines[row]);
                if self.position.col < line_len {
                    self.position.col = self.position.col + 1;
                } else if row < lines.len() - 1 {
                    self.position.row = row + 1;
                    self.position.col = 0;
                }
            },
        }
        old_position.row != self.position.row || old_position.col != self.position.col
    }

    /// Places the cursor at screen row `row` of a page scrolled to
    /// `scroll_offset`; a row past the end of the document is clamped to the
    /// last line, and the column to the length of the line.
    pub fn move_to_position(&mut self, row: usize, col: usize, scroll_offset: usize, lines: &[String]) -> (changed: bool)
        ensures
            final(self).position == placed(old(self).position, row as int, col as int, scroll_offset as int, doc(lines@)),
            lines@.len() > 0 ==> position_in_bounds(final(self).position, lines@),
            changed == (final(self).position != old(self).position),
    {
        let old_position = self.position;
        let n = lines.len();
        if n > 0 {
            let actual_row = if row < n && scroll_offset < n - row { row + scroll_offset } else { n - 1 };
            let line_len = char_len(&lines[actual_row]);
            self.position.row = actual_row;
            self.position.col = if col < line_len { col } else { line_len };
        }
        old_position.row != self.position.row || old_position.col != self.position.col
    }

    /// Moves the cursor to the start of its line.
    pub fn move_to_line_start(&mut self) -> (changed: bool)
        ensures
            final(self).position.row == old(self).position.row,
            final(self).position.col == 0,
            changed == (old(self).position.col != 0),
    {
        let old_col = self.position.col;
        self.position.col = 0;
        old_col != 0
    }

    /// Moves the cursor to the end of its line.
    pub fn move_to_line_end(&mut self, lines: &[String]) -> (changed: bool)
        ensures
            final(self).position.row == old(self).position.row,
            final(self).position.col == if old(self).position.row < lines@.len() {
                line_len(lines@, old(self).position.row as int)
            } else {
                old(self).position.col as int
            },
            changed == (final(self).position.col != old(self).position.col),
    {
        let old_col = self.position.col;
        if self.position.row < lines.len() {
            self.position.col = char_len(&lines[self.position.row]);
        }
        old_col != self.position.col
    }

    /// Moves the cursor to the start of the document.
    pub fn move_to_document_start(&mut self) -> (changed: bool)
        ensures
            final(self).position.row == 0,
            final(self).position.col == 0,
            changed == (old(self).position.row != 0 || old(self).position.col != 0),
    {
        let old_position = self.position;
        self.position.row = 0;
        self.position.col = 0;
        old_position.row != 0 || old_position.col != 0
    }

    /// Moves the cursor to the end of the last line.
    pub fn move_to_document_end(&mut self, lines: &[String]) -> (changed: bool)
        ensures
            lines@.len() == 0 ==> final(self).position.row == 0 && final(self).position.col == 0,
            lines@.len() > 0 ==> final(self).position.row == lines@.len() - 1
                && final(self).position.col == line_len(lines@, lines@.len() - 1),
            changed == (final(self).position != old(self).position),
    {
        let old_position = self.position;
        if lines.len() == 0 {
            self.position.row = 0;
            self.position.col = 0;
        } else {
            self.position.row = lines.len() - 1;
            self.position.col = char_len(&lines[lines.len() - 1]);
        }
        old_position.row != self.position.row || old_position.col != self.position.col
    }

    /// Re-clamps the cursor into the buffer; returns whether it moved.
    pub fn validate_position(&mut self, lines: &[String]) -> (changed: bool)
        ensures
            final(self).position == validated(old(self).position, doc(lines@)),
            lines@.len() > 0 ==> position_in_bounds(final(self).position, lines@),
            changed == (final(self).position != old(self).position),
    {
        let old_position = self.position;
        if self.position.row >= lines.len() {
            self.position.row = if lines.len() == 0 { 0 } else { lines.len() - 1 };
        }
        if self.position.row < lines.len() {
            let line_len = char_len(&lines[self.position.row]);
            if self.position.col > line_len {
                self.position.col = line_len;
            }
        }
        old_position.row != self.position.row || old_position.col != self.position.col
    }

    /// The cursor position on screen, for a page scrolled to `scroll_offset`.
    pub fn viewport_position(&self, scroll_offset: usize) -> (r: CursorPosition)
        ensures
            r.row == if self.position.row >= scroll_offset { self.position.row - scroll_offset } else { 0 },
            r.col == self.position.col,
    {
        let row = if self.position.row >= scroll_offset { self.position.row - scroll_offset } else { 0 };
        CursorPosition::new(row, self.position.col)
    }

    /// Whether the cursor row lies on the page `[scroll_offset, scroll_offset + viewport_height)`.
    pub fn is_visible_in_viewport(&self, scroll_offset: usize, viewport_height: usize) -> (r: bool)
        ensures
            r == (scroll_offset <= self.position.row < scroll_offset + viewport_height),
    {
        self.position.row >= scroll_offset && self.position.row - scroll_offset < viewport_height
    }

    /// The scroll offset that keeps the cursor on a page of `viewport_height`
    /// rows, clamped to `[0, max(0, total_lines - viewport_height)]`.
    pub fn adjust_scroll_for_visibility(&self, scroll_offset: usize, viewport_height: usize, total_lines: usize) -> (r: usize)
        ensures
            r == scroll_for_visibility(self.position.row as int, scroll_offset as int, viewport_height as int, total_lines as int),
            r <= max_scroll(viewport_height as int, total_lines as int),
    {
        let row = self.position.row;
        let max_offset = if total_lines > viewport_height { total_lines - viewport_height } else { 0 };
        let wanted = if row < scroll_offset {
            row
        } else if row - scroll_offset >= viewport_height {
            if viewport_height == 0 {
                if row >= max_offset { max_offset } else { row + 1 }
            } else if row >= viewport_height - 1 {
                row - (viewport_height - 1)
            } else {
                0
            }
        } else {
            scroll_offset
        };
        if wanted < max_offset { wanted } else { max_offset }
    }

    /// The cursor position relative to the page, as (row, column).
    pub fn position_for_mouse(&self, scroll_offset: usize) -> (r: (usize, usize))
        ensures
            r.0 == if self.position.row >= scroll_offset { self.position.row - scroll_offset } else { 0 },
            r.1 == self.position.col,
    {
        let row = if self.position.row >= scroll_offset { self.position.row - scroll_offset } else { 0 };
        (row, self.position.col)
    }
}

impl Default for CursorController {
    fn default() -> (r: Self)
        ensures
            r.position == CursorPosition::zero_spec(),
    {
        CursorController::new()
    }
}

/// Re-clamping is idempotent: validating an already validated position
/// leaves it unchanged.
pub proof fn lemma_validate_idempotent(p: CursorPosition, t: Seq<Seq<char>>)
    ensures
        validated(validated(p, t), t) == validated(p, t),
{
}

/// Moving up from a row of the buffer below the first keeps the column,
/// clamped to the length of the line above: `min(c, len(lines[r - 1]))`.
pub proof fn lemma_move_up_column(p: CursorPosition, t: Seq<Seq<char>>)
    requires
        0 < p.row < t.len(),
    ensures
        step(p, Direction::Up, t).row == p.row - 1,
        step(p, Direction::Up, t).col == min_int(p.col as int, t[p.row - 1].len() as int),
{
}

/// The adjusted scroll offset always lies in `[0, max(0, total - height)]`.
pub proof fn lemma_scroll_in_bounds(row: int, offset: int, height: int, total_lines: int)
    requires
        0 <= row,
        0 <= offset,
        0 <= height,
        0 <= total_lines,
    ensures
        0 <= scroll_for_visibility(row, offset, height, total_lines),
        scroll_for_visibility(row, offset, height, total_lines) <= max_scroll(height, total_lines),
{
}

} // verus!
