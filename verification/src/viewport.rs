//! Viewport arithmetic for the scrollable preset list.
//!
//! The viewport shows `visible_rows` consecutive items starting at a scroll
//! offset. A buffer zone keeps the selection away from the window's edges
//! except at the absolute top and bottom of the list, and a page jump moves
//! by one window minus the buffer zone so context survives page boundaries.

use vstd::prelude::*;

verus! {

/// Subtraction on integers that floors at zero, as the saturating
/// subtraction of the machine types does.
pub open spec fn sat_sub(a: int, b: int) -> int {
    if a >= b {
        a - b
    } else {
        0
    }
}

/// How many list rows fit in a terminal of the given height: the keymap pane
/// takes three rows and the list pane's border two more.
pub open spec fn spec_visible_rows(terminal_height: int) -> int {
    sat_sub(terminal_height, 5)
}

/// Rows kept between the selection and the window's edge: a quarter of the
/// window, at most three.
pub open spec fn spec_buffer_zone(visible_rows: int) -> int {
    if visible_rows / 4 < 3 {
        visible_rows / 4
    } else {
        3
    }
}

/// A page jump is one window minus the buffer zone, so that the buffer-zone
/// rows overlap across a page boundary.
pub open spec fn spec_page_jump(visible_rows: int) -> int {
    sat_sub(visible_rows, spec_buffer_zone(visible_rows))
}

/// How many list rows fit in a terminal of the given height.
pub fn visible_list_rows(terminal_height: u16) -> (r: usize)
    ensures
        r == spec_visible_rows(terminal_height as int),
{
    (terminal_height as usize).saturating_sub(5)
}

/// Rows kept between the selection and the window's edge.
pub fn buffer_zone(visible_rows: usize) -> (r: usize)
    ensures
        r == spec_buffer_zone(visible_rows as int),
{
    let quarter = visible_rows / 4;
    if quarter < 3 {
        quarter
    } else {
        3
    }
}

/// The number of items one page-sized jump moves the selection by.
pub fn page_jump(visible_rows: usize) -> (r: usize)
    ensures
        r == spec_page_jump(visible_rows as int),
{
    visible_rows.saturating_sub(buffer_zone(visible_rows))
}

/// The scroll offset after one adjustment: pulled up when the selection has
/// entered the upper buffer zone, pushed down (and clamped into the legal
/// range) when it has entered the lower one, unchanged otherwise.
pub open spec fn spec_adjusted_offset(off: int, sel: int, rows: int, n: int) -> int {
    let bz = spec_buffer_zone(rows);
    if sel < off + bz {
        sat_sub(sel, bz)
    } else if sel >= off + sat_sub(rows, bz) {
        let target = sat_sub(sel, sat_sub(rows, bz + 1));
        let bound = sat_sub(n, rows);
        if target < bound {
            target
        } else {
            bound
        }
    } else {
        off
    }
}

/// Moves the scroll offset so that the selection keeps clear of the window's
/// edges: after the call the selection lies inside the window, and an offset
/// that was within the legal scroll range stays within it.
pub fn adjust_view_offset(
    view_offset: &mut usize,
    selected_index: usize,
    visible_rows: usize,
    item_count: usize,
)
    ensures
        *final(view_offset) == spec_adjusted_offset(
            *old(view_offset) as int,
            selected_index as int,
            visible_rows as int,
            item_count as int,
        ),
        visible_rows >= 1 && selected_index < item_count ==> *final(view_offset)
            <= selected_index < *final(view_offset) + visible_rows,
        *old(view_offset) <= sat_sub(item_count as int, visible_rows as int)
            ==> *final(view_offset) <= sat_sub(item_count as int, visible_rows as int),
{
    let bz = buffer_zone(visible_rows);
    let span = visible_rows.saturating_sub(bz);
    if selected_index < bz || selected_index - bz < *view_offset {
        *view_offset = selected_index.saturating_sub(bz);
    } else if selected_index >= span && selected_index - span >= *view_offset {
        let target = selected_index.saturating_sub(visible_rows.saturating_sub(bz + 1));
        let bound = item_count.saturating_sub(visible_rows);
        *view_offset = if target < bound {
            target
        } else {
            bound
        };
    }
}

/// How one visible row of the list is to be drawn: which item it shows,
/// whether it carries the selection highlight, and whether it is dimmed to
/// mark content scrolled off beyond it.
#[derive(Clone, Copy, Debug, PartialEq, Eq)]
pub struct RowMark {
    pub index: usize,
    pub selected: bool,
    pub dimmed: bool,
}

/// How many rows the window actually shows: a full window, or fewer when the
/// list ends before the window does.
pub open spec fn spec_shown_rows(n: int, off: int, rows: int) -> int {
    if sat_sub(n, off) < rows {
        sat_sub(n, off)
    } else {
        rows
    }
}

/// The mark of the `i`th visible row: it shows item `off + i`, carries the
/// highlight exactly when that item is selected, and is dimmed when it is the
/// window's first row with items scrolled off above, or the window's last
/// possible row with items scrolled off below.
pub open spec fn spec_row_mark(i: int, off: int, rows: int, sel: int, n: int) -> RowMark {
    RowMark {
        index: (off + i) as usize,
        selected: off + i == sel,
        dimmed: (i == 0 && off > 0) || (i == rows - 1 && off + rows < n),
    }
}

/// Computes the marks of the visible rows: one for each item of the window,
/// in list order.
pub fn list_row_marks(
    item_count: usize,
    view_offset: usize,
    visible_rows: usize,
    selected_index: usize,
) -> (marks: Vec<RowMark>)
    ensures
        marks@.len() == spec_shown_rows(item_count as int, view_offset as int, visible_rows as int),
        forall|i: int|
            0 <= i < marks@.len() ==> marks@[i] == spec_row_mark(
                i,
                view_offset as int,
                visible_rows as int,
                selected_index as int,
                item_count as int,
            ),
{
    let shown = if item_count.saturating_sub(view_offset) < visible_rows {
        item_count.saturating_sub(view_offset)
    } else {
        visible_rows
    };
    let mut marks: Vec<RowMark> = Vec::new();
    let mut i: usize = 0;
    while i < shown
        invariant
            i <= shown,
            shown == spec_shown_rows(item_count as int, view_offset as int, visible_rows as int),
            shown <= visible_rows,
            shown == 0 || view_offset + shown <= item_count,
            marks@.len() == i,
            forall|j: int|
                0 <= j < i ==> marks@[j] == spec_row_mark(
                    j,
                    view_offset as int,
                    visible_rows as int,
                    selected_index as int,
                    item_count as int,
                ),
        decreases shown - i,
    {
        let index = view_offset + i;
        let more_below = view_offset < item_count && item_count - view_offset > visible_rows;
        marks.push(
            RowMark {
                index,
                selected: index == selected_index,
                dimmed: (i == 0 && view_offset > 0) || (i + 1 == visible_rows && more_below),
            },
        );
        i = i + 1;
    }
    marks
}

/// After an adjustment the selection is always visible: the offset is at most
/// the selection, and the selection lies strictly within one window of rows
/// starting at the offset. Holds for every window of at least one row and
/// every in-range selection, whatever offset the adjustment started from.
pub proof fn lemma_adjusted_offset_visible(off: int, sel: int, rows: int, n: int)
    requires
        rows >= 1,
        0 <= sel < n,
        off >= 0,
    ensures
        spec_adjusted_offset(off, sel, rows, n) <= sel < spec_adjusted_offset(off, sel, rows, n)
            + rows,
        spec_adjusted_offset(off, sel, rows, n) >= 0,
{
}

/// An adjustment never scrolls past the end of the list: an offset within the
/// legal scroll range `[0, max(0, item_count - rows)]` stays within it.
pub proof fn lemma_adjusted_offset_in_range(off: int, sel: int, rows: int, n: int)
    requires
        0 <= off <= sat_sub(n, rows),
        0 <= sel < n,
    ensures
        0 <= spec_adjusted_offset(off, sel, rows, n) <= sat_sub(n, rows),
{
}

} // verus!
