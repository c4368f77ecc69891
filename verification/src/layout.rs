//! Rows and columns of a text that is held as one flat sequence of characters.
//!
//! A position is an offset between `0` and the length of the text. It lies on
//! the row given by the number of line breaks before it, in the column given by
//! its distance from the start of that row. Everything here is ghost code: the
//! definitions that contracts elsewhere are stated in, and the facts that link
//! them.

use vstd::prelude::*;
use crate::key::Direction;

verus! {

/// The character that ends a row.
pub const LINE_BREAK: char = '\n';

/// The character that takes a terminal's cursor back to the first column.
pub const CARRIAGE_RETURN: char = '\r';

/// `x`, pulled into `low ..= high`.
pub open spec fn clamp(x: int, low: int, high: int) -> int {
    if x < low {
        low
    } else if x > high {
        high
    } else {
        x
    }
}

/// The smaller of two numbers.
pub open spec fn least(a: int, b: int) -> int {
    if a <= b {
        a
    } else {
        b
    }
}

/// No line break lies at any offset from `from` up to, not including, `to`.
pub open spec fn unbroken(text: Seq<char>, from: int, to: int) -> bool {
    forall|i: int| from <= i < to ==> #[trigger] text[i] != LINE_BREAK
}

/// The row of a position: how many line breaks come before it.
pub open spec fn row_of(text: Seq<char>, pos: int) -> int
    decreases pos,
{
    if pos <= 0 {
        0
    } else if text[pos - 1] == LINE_BREAK {
        row_of(text, pos - 1) + 1
    } else {
        row_of(text, pos - 1)
    }
}

/// The row of the end of the text, which is the last one.
pub open spec fn last_row(text: Seq<char>) -> int {
    row_of(text, text.len() as int)
}

/// Where the row that holds `pos` begins.
pub open spec fn line_start(text: Seq<char>, pos: int) -> int
    decreases pos,
{
    if pos <= 0 {
        0
    } else if text[pos - 1] == LINE_BREAK {
        pos
    } else {
        line_start(text, pos - 1)
    }
}

/// Where the row that holds `pos` ends: at its line break, or at the end of the
/// text.
pub open spec fn line_end(text: Seq<char>, pos: int) -> int
    decreases text.len() - pos,
{
    if pos >= text.len() {
        text.len() as int
    } else if text[pos] == LINE_BREAK {
        pos
    } else {
        line_end(text, pos + 1)
    }
}

/// The column of a position: its distance from the start of its row.
pub open spec fn column_of(text: Seq<char>, pos: int) -> int {
    pos - line_start(text, pos)
}

/// Where row number `row` begins.
pub open spec fn row_start(text: Seq<char>, row: int) -> int
    decreases row,
{
    if row <= 0 {
        0
    } else {
        line_end(text, row_start(text, row - 1)) + 1
    }
}

/// How many characters row number `row` holds, its line break not counted.
pub open spec fn row_width(text: Seq<char>, row: int) -> int {
    line_end(text, row_start(text, row)) - row_start(text, row)
}

/// The characters that show a text on a terminal in raw mode, where a line
/// break alone only goes down a row: the text, with a carriage return put
/// before every line break.
pub open spec fn shown(text: Seq<char>) -> Seq<char>
    decreases text.len(),
{
    if text.len() == 0 {
        Seq::empty()
    } else if text.last() == LINE_BREAK {
        shown(text.drop_last()).push(CARRIAGE_RETURN).push(LINE_BREAK)
    } else {
        shown(text.drop_last()).push(text.last())
    }
}

/// The position one step from `cursor`: the direction's unit step is added to
/// the cursor's row and column, the row is clamped to the rows of the text, and
/// the column to the width of the row arrived at.
pub open spec fn stepped(text: Seq<char>, cursor: int, direction: Direction) -> int {
    let row = clamp(row_of(text, cursor) + direction.row_delta(), 0, last_row(text));
    let column = clamp(
        column_of(text, cursor) + direction.column_delta(),
        0,
        row_width(text, row),
    );
    row_start(text, row) + column
}

/// The same step, found by looking no further than the neighbouring rows.
pub open spec fn stepped_locally(text: Seq<char>, cursor: int, direction: Direction) -> int {
    let start = line_start(text, cursor);
    let end = line_end(text, cursor);
    match direction {
        Direction::Left => if start < cursor {
            cursor - 1
        } else {
            cursor
        },
        Direction::Right => if cursor < end {
            cursor + 1
        } else {
            cursor
        },
        Direction::Up => if start == 0 {
            cursor
        } else {
            let above = line_start(text, start - 1);
            above + least(cursor - start, start - 1 - above)
        },
        Direction::Down => if end == text.len() {
            cursor
        } else {
            let below = end + 1;
            below + least(cursor - start, line_end(text, below) - below)
        },
    }
}

/// The start of a row lies at or before the position, follows a line break
/// unless it is the start of the text, and no line break lies in between.
pub proof fn lemma_line_start(text: Seq<char>, pos: int)
    requires
        0 <= pos <= text.len(),
    ensures
        0 <= line_start(text, pos) <= pos,
        line_start(text, pos) == 0 || text[line_start(text, pos) - 1] == LINE_BREAK,
        unbroken(text, line_start(text, pos), pos),
    decreases pos,
{
    if pos > 0 && text[pos - 1] != LINE_BREAK {
        lemma_line_start(text, pos - 1);
    }
}

/// The end of a row lies at or after the position, is a line break unless it is
/// the end of the text, and no line break lies in between.
pub proof fn lemma_line_end(text: Seq<char>, pos: int)
    requires
        0 <= pos <= text.len(),
    ensures
        pos <= line_end(text, pos) <= text.len(),
        line_end(text, pos) == text.len() || text[line_end(text, pos)] == LINE_BREAK,
        unbroken(text, pos, line_end(text, pos)),
    decreases text.len() - pos,
{
    if pos < text.len() && text[pos] != LINE_BREAK {
        lemma_line_end(text, pos + 1);
    }
}

/// Two positions with no line break between them share their row: its number,
/// its start and its end.
pub proof fn lemma_same_row(text: Seq<char>, from: int, to: int)
    requires
        0 <= from <= to <= text.len(),
        unbroken(text, from, to),
    ensures
        row_of(text, to) == row_of(text, from),
        line_start(text, to) == line_start(text, from),
        line_end(text, to) == line_end(text, from),
    decreases to - from,
{
    if from < to {
        assert(text[to - 1] != LINE_BREAK);
        assert(text[from] != LINE_BREAK);
        lemma_same_row(text, from, to - 1);
        lemma_same_row(text, from + 1, to);
    }
}

/// Rows are numbered in the order of their positions.
pub proof fn lemma_rows_ascend(text: Seq<char>, from: int, to: int)
    requires
        0 <= from <= to,
    ensures
        0 <= row_of(text, from) <= row_of(text, to),
    decreases to,
{
    if from < to {
        lemma_rows_ascend(text, from, to - 1);
    } else if from > 0 {
        lemma_rows_ascend(text, from - 1, from - 1);
    }
}

/// The row of a position begins where that position's row begins.
pub proof fn lemma_row_start(text: Seq<char>, pos: int)
    requires
        0 <= pos <= text.len(),
    ensures
        row_start(text, row_of(text, pos)) == line_start(text, pos),
    decreases pos,
{
    if pos > 0 {
        lemma_row_start(text, pos - 1);
        lemma_rows_ascend(text, 0, pos - 1);
        if text[pos - 1] == LINE_BREAK {
            lemma_line_start(text, pos - 1);
            lemma_same_row(text, line_start(text, pos - 1), pos - 1);
        }
    }
}

/// A position is on the first row exactly if its row begins the text, and on
/// the last row exactly if its row ends the text.
pub proof fn lemma_edge_rows(text: Seq<char>, pos: int)
    requires
        0 <= pos <= text.len(),
    ensures
        0 <= row_of(text, pos) <= last_row(text),
        row_of(text, pos) == 0 <==> line_start(text, pos) == 0,
        row_of(text, pos) == last_row(text) <==> line_end(text, pos) == text.len(),
{
    let start = line_start(text, pos);
    let end = line_end(text, pos);
    lemma_line_start(text, pos);
    lemma_line_end(text, pos);
    lemma_same_row(text, start, pos);
    lemma_same_row(text, pos, end);
    lemma_rows_ascend(text, pos, text.len() as int);
    if start > 0 {
        lemma_rows_ascend(text, 0, start - 1);
    }
    if end < text.len() {
        lemma_rows_ascend(text, end + 1, text.len() as int);
    }
}

/// Every row up to the last begins inside the text, at a position of that row
/// in column zero.
pub proof fn lemma_row_begins(text: Seq<char>, row: int)
    requires
        0 <= row <= last_row(text),
    ensures
        0 <= row_start(text, row) <= text.len(),
        row_of(text, row_start(text, row)) == row,
        line_start(text, row_start(text, row)) == row_start(text, row),
        0 <= row_width(text, row),
    decreases row,
{
    if row > 0 {
        lemma_row_begins(text, row - 1);
        let before = row_start(text, row - 1);
        lemma_edge_rows(text, before);
        lemma_line_end(text, before);
        lemma_same_row(text, before, line_end(text, before));
    }
    lemma_line_end(text, row_start(text, row));
}

/// Each column of a row, up to its width, is a position of the text on that
/// row, in that column.
pub proof fn lemma_position(text: Seq<char>, row: int, column: int)
    requires
        0 <= row <= last_row(text),
        0 <= column <= row_width(text, row),
    ensures
        0 <= row_start(text, row) + column <= text.len(),
        row_of(text, row_start(text, row) + column) == row,
        column_of(text, row_start(text, row) + column) == column,
{
    let start = row_start(text, row);
    lemma_row_begins(text, row);
    lemma_line_end(text, start);
    lemma_same_row(text, start, start + column);
}

/// A step can be found from the rows next to the cursor, and stays in the text.
pub proof fn lemma_stepped(text: Seq<char>, cursor: int, direction: Direction)
    requires
        0 <= cursor <= text.len(),
    ensures
        stepped(text, cursor, direction) == stepped_locally(text, cursor, direction),
        0 <= stepped(text, cursor, direction) <= text.len(),
{
    let start = line_start(text, cursor);
    let end = line_end(text, cursor);
    let row = row_of(text, cursor);
    lemma_line_start(text, cursor);
    lemma_line_end(text, cursor);
    lemma_same_row(text, start, cursor);
    lemma_same_row(text, cursor, end);
    lemma_row_start(text, cursor);
    lemma_edge_rows(text, cursor);
    assert(row_width(text, row) == end - start);
    match direction {
        Direction::Left | Direction::Right => {},
        Direction::Up => {
            if start > 0 {
                let above = line_start(text, start - 1);
                lemma_line_start(text, start - 1);
                lemma_same_row(text, above, start - 1);
                lemma_row_start(text, start - 1);
                assert(row_of(text, start - 1) == row - 1);
                assert(line_end(text, start - 1) == start - 1);
                assert(row_width(text, row - 1) == start - 1 - above);
            }
        },
        Direction::Down => {
            if end < text.len() {
                let below = end + 1;
                lemma_line_end(text, below);
                lemma_rows_ascend(text, below, text.len() as int);
                assert(row_of(text, below) == row + 1);
                assert(row_start(text, row + 1) == below);
            }
        },
    }
}

} // verus!
