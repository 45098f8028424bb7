//! Cursor and viewport arithmetic over a bounded display region.
//!
//! A position is a row of the window and a column of the line shown in that
//! row; the viewport is named by the index of the first line it shows. All
//! functions here work on plain numbers: the editor hands them the size of
//! its window and of its current buffer.

use vstd::prelude::*;

verus! {

/// `x` held to the range from `lo` to `hi`.
pub open spec fn clamp(x: int, lo: int, hi: int) -> int
    recommends
        lo <= hi,
{
    if x < lo {
        lo
    } else if x > hi {
        hi
    } else {
        x
    }
}

/// Index of the last line of a buffer with `line_count` lines, and `0` for a
/// buffer without lines.
pub open spec fn last_line_index(line_count: int) -> int {
    if line_count >= 1 {
        line_count - 1
    } else {
        0
    }
}

/// How far `to` lies after `from`, and `0` where it lies before it.
pub open spec fn rows_between(from: int, to: int) -> int {
    if to >= from {
        to - from
    } else {
        0
    }
}

/// The row the cursor takes when it is moved down by `dy` rows (up, where
/// `dy` is negative): the wanted row is held inside the window, and where it
/// would show a line past the last one, it is the row of the last line, or
/// row `0` if that line is above the viewport.
pub open spec fn target_row_spec(
    row: int,
    dy: int,
    viewport_start: int,
    window_height: int,
    line_count: int,
) -> int {
    let candidate = clamp(row + dy, 0, window_height - 1);
    if viewport_start + candidate > last_line_index(line_count) {
        rows_between(viewport_start, last_line_index(line_count))
    } else {
        candidate
    }
}

/// The column the cursor takes when it is moved right by `dx` columns (left,
/// where `dx` is negative) on a line of `line_len` characters.
pub open spec fn target_col_spec(col: int, dx: int, line_len: int) -> int {
    clamp(col + dx, 0, line_len)
}

/// First visible line after a jump to the end of the file: the last
/// `window_height` lines are shown, or all of them if they are fewer.
pub open spec fn file_end_start_spec(line_count: int, window_height: int) -> int {
    if line_count >= window_height {
        line_count - window_height
    } else {
        0
    }
}

/// Row of the last line after a jump to the end of the file.
pub open spec fn file_end_row_spec(line_count: int, window_height: int) -> int {
    rows_between(file_end_start_spec(line_count, window_height), last_line_index(line_count))
}

/// First visible line after paging forward: one window further, but never
/// past the last line.
pub open spec fn page_forward_spec(viewport_start: int, window_height: int, line_count: int) -> int {
    if viewport_start + window_height <= last_line_index(line_count) {
        viewport_start + window_height
    } else {
        last_line_index(line_count)
    }
}

/// First visible line after paging backward: one window back, but never
/// before the first line.
pub open spec fn page_backward_spec(viewport_start: int, window_height: int) -> int {
    if viewport_start >= window_height {
        viewport_start - window_height
    } else {
        0
    }
}

/// A moved cursor stays inside the window, and the line it is on is never
/// past the last line of the buffer unless it is in row `0`.
pub proof fn lemma_target_row_bounds(
    row: int,
    dy: int,
    viewport_start: int,
    window_height: int,
    line_count: int,
)
    requires
        window_height >= 1,
        viewport_start >= 0,
    ensures
        0 <= target_row_spec(row, dy, viewport_start, window_height, line_count) <= window_height
            - 1,
        viewport_start + target_row_spec(row, dy, viewport_start, window_height, line_count)
            <= last_line_index(line_count) || target_row_spec(
            row,
            dy,
            viewport_start,
            window_height,
            line_count,
        ) == 0,
{
}

/// Moving down row by row from row `0` of a viewport that starts at the
/// first line never brings the cursor past the last line: after any number
/// of single steps the row is the number of steps, held to the last line and
/// to the last row of the window.
pub proof fn lemma_walk_down(steps: nat, window_height: int, line_count: int)
    requires
        window_height >= 1,
    ensures
        walk_down(steps, window_height, line_count) == clamp(
            steps as int,
            0,
            clamp(last_line_index(line_count), 0, window_height - 1),
        ),
        walk_down(steps, window_height, line_count) <= last_line_index(line_count),
    decreases steps,
{
    if steps > 0 {
        lemma_walk_down((steps - 1) as nat, window_height, line_count);
    }
}

/// The row reached after `steps` single steps down from row `0`, in a
/// viewport that starts at the first line.
pub open spec fn walk_down(steps: nat, window_height: int, line_count: int) -> int
    decreases steps,
{
    if steps == 0 {
        0
    } else {
        target_row_spec(
            walk_down((steps - 1) as nat, window_height, line_count),
            1,
            0,
            window_height,
            line_count,
        )
    }
}

/// Index of the last line of a buffer with `line_count` lines.
pub fn last_line(line_count: usize) -> (last: usize)
    ensures
        last == last_line_index(line_count as int),
{
    if line_count >= 1 {
        line_count - 1
    } else {
        0
    }
}

/// Computes the row of a cursor moved by `dy` rows.
pub fn target_row(
    row: usize,
    dy: i32,
    viewport_start: usize,
    window_height: usize,
    line_count: usize,
) -> (next: usize)
    requires
        window_height >= 1,
    ensures
        next == target_row_spec(
            row as int,
            dy as int,
            viewport_start as int,
            window_height as int,
            line_count as int,
        ),
        next <= window_height - 1,
        viewport_start + next <= last_line_index(line_count as int) || next == 0,
{
    let top: usize = window_height - 1;
    let wanted: i128 = row as i128 + dy as i128;
    let candidate: usize = if wanted < 0 {
        0
    } else if wanted > top as i128 {
        top
    } else {
        wanted as usize
    };
    let last: usize = last_line(line_count);
    if candidate > last || viewport_start > last - candidate {
        if last < viewport_start {
            0
        } else {
            last - viewport_start
        }
    } else {
        candidate
    }
}

/// Computes the column of a cursor moved by `dx` columns on a line of
/// `line_len` characters.
pub fn target_col(col: usize, dx: i32, line_len: usize) -> (next: usize)
    ensures
        next == target_col_spec(col as int, dx as int, line_len as int),
        next <= line_len,
{
    let wanted: i128 = col as i128 + dx as i128;
    if wanted < 0 {
        0
    } else if wanted > line_len as i128 {
        line_len
    } else {
        wanted as usize
    }
}

/// Computes the first visible line after a jump to the end of the file.
pub fn file_end_start(line_count: usize, window_height: usize) -> (start: usize)
    ensures
        start == file_end_start_spec(line_count as int, window_height as int),
{
    if line_count >= window_height {
        line_count - window_height
    } else {
        0
    }
}

/// Computes the row of the last line after a jump to the end of the file.
pub fn file_end_row(line_count: usize, window_height: usize) -> (row: usize)
    ensures
        row == file_end_row_spec(line_count as int, window_height as int),
        window_height >= 1 ==> row <= window_height - 1,
{
    let last: usize = last_line(line_count);
    let start: usize = file_end_start(line_count, window_height);
    if last >= start {
        last - start
    } else {
        0
    }
}

/// Pages forward: the viewport advances by one window, but never past the
/// last line of the buffer.
pub fn page_forward(viewport_start: usize, window_height: usize, line_count: usize) -> (next: usize)
    ensures
        next == page_forward_spec(viewport_start as int, window_height as int, line_count as int),
{
    let last: usize = last_line(line_count);
    if viewport_start <= last && window_height <= last - viewport_start {
        viewport_start + window_height
    } else {
        last
    }
}

/// Pages backward: the viewport goes back by one window, but never before
/// the first line.
pub fn page_backward(viewport_start: usize, window_height: usize) -> (next: usize)
    ensures
        next == page_backward_spec(viewport_start as int, window_height as int),
{
    if viewport_start >= window_height {
        viewport_start - window_height
    } else {
        0
    }
}

} // verus!
