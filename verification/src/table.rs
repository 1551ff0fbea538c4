//! Row selection in a table of a given length.

use vstd::prelude::*;

verus! {

/// The row a selection request lands on: the requested row, clamped to
/// the last row; row 0 for an empty table.
pub open spec fn clamped_row(idx: int, len: int) -> int {
    if len == 0 {
        0
    } else if idx < len - 1 {
        idx
    } else {
        len - 1
    }
}

/// Select row `idx`, clamped to the table.
pub fn select_row(idx: usize, len: usize) -> (r: usize)
    ensures
        r == clamped_row(idx as int, len as int),
{
    if len == 0 {
        0
    } else if idx < len - 1 {
        idx
    } else {
        len - 1
    }
}

/// The row after moving by `delta` from the current selection (no
/// selection counts as row 0), clamped to `0..len`.
pub open spec fn moved_row(current: Option<usize>, delta: int, len: int) -> int {
    let cur = match current {
        Some(c) => c as int,
        None => 0,
    };
    let next = cur + delta;
    if next < 0 {
        0
    } else if next > len - 1 {
        len - 1
    } else {
        next
    }
}

/// Move the selection by `delta` rows; `None` (selection unchanged) on an
/// empty table.
pub fn move_row(current: Option<usize>, delta: isize, len: usize) -> (r: Option<usize>)
    ensures
        len == 0 ==> r is None,
        len > 0 ==> r == Some(clamped_row(moved_row(current, delta as int, len as int), len as int) as usize),
{
    if len == 0 {
        return None;
    }
    let cur: i128 = match current {
        Some(c) => c as i128,
        None => 0,
    };
    let next = cur + delta as i128;
    let last = len as i128 - 1;
    let target: i128 = if next < 0 {
        0
    } else if next > last {
        last
    } else {
        next
    };
    Some(select_row(target as usize, len))
}

/// A moved selection always lies inside a non-empty table.
pub proof fn lemma_moved_row_in_table(current: Option<usize>, delta: int, len: int)
    requires
        len > 0,
    ensures
        0 <= moved_row(current, delta, len) < len,
        clamped_row(moved_row(current, delta, len), len) == moved_row(current, delta, len),
{
}

} // verus!
