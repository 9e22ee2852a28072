use vstd::prelude::*;
use vstd::string::*;
use crate::cursor::{CursorPosition, char_len, line_len, min_int};
use crate::text::{is_whitespace, whitespace};

verus! {

/// The column that vertical movement keeps on `target`: `min(col, len)`.
pub fn calculate_preferred_column(current_col: usize, target_line: &str) -> (r: usize)
    ensures
        r == min_int(current_col as int, target_line@.len() as int),
{
    let len = target_line.unicode_len();
    if current_col < len { current_col } else { len }
}

/// From `start`, the characters up to `m` are not whitespace and stop at
/// whitespace or the end; from `m`, those up to `r` are whitespace and stop
/// at a non-whitespace character or the end.
pub open spec fn next_boundary_via(line: Seq<char>, start: int, m: int, r: int) -> bool {
    &&& start <= m <= r <= line.len()
    &&& forall|i: int| start <= i < m ==> !#[trigger] whitespace(line[i])
    &&& (m == line.len() || whitespace(line[m]))
    &&& forall|i: int| m <= i < r ==> #[trigger] whitespace(line[i])
    &&& (r == line.len() || !whitespace(line[r]))
}

/// Searching back from `last`, the characters after `m` are whitespace and
/// `m` is not (or is the first); the word that ends at `m` starts at `r`,
/// which lies just after a whitespace character, or is 0 where the search
/// reached the start of the line.
pub open spec fn prev_boundary_via(line: Seq<char>, last: int, m: int, r: int) -> bool {
    &&& 0 <= r <= m <= last < line.len()
    &&& forall|i: int| m < i <= last ==> #[trigger] whitespace(line[i])
    &&& (m == 0 || !whitespace(line[m]))
    &&& forall|i: int| r <= i <= m && i >= 1 ==> !#[trigger] whitespace(line[i])
    &&& (r > 0 ==> whitespace(line[r - 1]))
    &&& r != 1
}

/// The column after skipping the rest of the word at `start_col` and the
/// whitespace after it.
pub fn find_next_word_boundary(line: &str, start_col: usize) -> (r: usize)
    ensures
        start_col >= line@.len() ==> r == line@.len(),
        start_col < line@.len() ==> exists|m: int| next_boundary_via(line@, start_col as int, m, r as int),
{
    let len = line.unicode_len();
    if start_col >= len {
        return len;
    }
    let mut col = start_col;
    while col < len && !is_whitespace(line.get_char(col))
        invariant
            start_col <= col <= len,
            len == line@.len(),
            forall|i: int| start_col <= i < col ==> !#[trigger] whitespace(line@[i]),
        decreases len - col,
    {
        col = col + 1;
    }
    let ghost m = col as int;
    while col < len && is_whitespace(line.get_char(col))
        invariant
            m <= col <= len,
            len == line@.len(),
            forall|i: int| m <= i < col ==> #[trigger] whitespace(line@[i]),
        decreases len - col,
    {
        col = col + 1;
    }
    assert(next_boundary_via(line@, start_col as int, m, col as int));
    col
}

/// The column where the word before `start_col` starts, skipping the
/// whitespace just before `start_col` first.
pub fn find_prev_word_boundary(line: &str, start_col: usize) -> (r: usize)
    ensures
        start_col == 0 || line@.len() == 0 ==> r == 0,
        start_col > 0 && line@.len() > 0 ==> exists|m: int|
            #[trigger] prev_boundary_via(line@, min_int(start_col as int, line@.len() as int) - 1, m, r as int),
{
    let len = line.unicode_len();
    if start_col == 0 || len == 0 {
        return 0;
    }
    let last = (if start_col < len { start_col } else { len }) - 1;
    let mut col = last;
    while col > 0 && is_whitespace(line.get_char(col))
        invariant
            col <= last < len,
            len == line@.len(),
            forall|i: int| col < i <= last ==> #[trigger] whitespace(line@[i]),
        decreases col,
    {
        col = col - 1;
    }
    let ghost m = col as int;
    assert(m == 0 || !whitespace(line@[m]));
    while col > 0 && !is_whitespace(line.get_char(col))
        invariant
            col <= m <= last < len,
            len == line@.len(),
            m == 0 || !whitespace(line@[m]),
            forall|i: int| col < i <= m ==> !#[trigger] whitespace(line@[i]),
        decreases col,
    {
        col = col - 1;
    }
    if col > 0 && is_whitespace(line.get_char(col)) {
        col = col + 1;
    }
    assert(prev_boundary_via(line@, last as int, m, col as int));
    assert(last as int == min_int(start_col as int, line@.len() as int) - 1);
    assert(prev_boundary_via(line@, min_int(start_col as int, line@.len() as int) - 1, m, col as int));
    col
}

/// The cursor is at the start of its line.
pub fn is_at_line_start(cursor: &CursorPosition) -> (r: bool)
    ensures
        r == (cursor.col == 0),
{
    cursor.col == 0
}

/// The cursor is at the end of its line, which exists.
pub fn is_at_line_end(cursor: &CursorPosition, lines: &[String]) -> (r: bool)
    ensures
        r == (cursor.row < lines@.len() && cursor.col == line_len(lines@, cursor.row as int)),
{
    cursor.row < lines.len() && cursor.col == char_len(&lines[cursor.row])
}

/// The cursor is at the start of the document.
pub fn is_at_document_start(cursor: &CursorPosition) -> (r: bool)
    ensures
        r == (cursor.row == 0 && cursor.col == 0),
{
    cursor.row == 0 && cursor.col == 0
}

/// The cursor is at the end of the last line (at the origin for no lines).
pub fn is_at_document_end(cursor: &CursorPosition, lines: &[String]) -> (r: bool)
    ensures
        lines@.len() == 0 ==> r == (cursor.row == 0 && cursor.col == 0),
        lines@.len() > 0 ==> r == (cursor.row == lines@.len() - 1 && cursor.col == line_len(lines@, lines@.len() - 1)),
{
    if lines.len() == 0 {
        return cursor.row == 0 && cursor.col == 0;
    }
    cursor.row == lines.len() - 1 && cursor.col == char_len(&lines[lines.len() - 1])
}

} // verus!
