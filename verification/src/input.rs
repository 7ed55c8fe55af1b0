//! The input dispatcher: one keyboard or mouse event becomes one selection
//! change, a confirm, a cancel, or nothing.
//!
//! Arrow keys move the selection by one; page keys and the scroll wheel move
//! it by one page jump; a mouse press inside the list pane (the left half of
//! the terminal, within the pane's vertical band) selects the row under the
//! pointer. All index arithmetic floors at zero and never leaves the range
//! of valid indices.

use vstd::prelude::*;
use crate::viewport::{page_jump, sat_sub, spec_page_jump, spec_visible_rows, visible_list_rows};

verus! {

/// The keys the selector reacts to; anything else is `Other`.
#[derive(Clone, Copy, Debug, PartialEq, Eq)]
pub enum KeyPress {
    Up,
    Down,
    PageUp,
    PageDown,
    Enter,
    Esc,
    Other,
}

/// The mouse actions the selector reacts to; anything else is `Other`.
#[derive(Clone, Copy, Debug, PartialEq, Eq)]
pub enum MouseAction {
    ScrollUp,
    ScrollDown,
    Press { column: u16, row: u16 },
    Other,
}

/// One decoded input event.
#[derive(Clone, Copy, Debug, PartialEq, Eq)]
pub enum InputEvent {
    Key(KeyPress),
    Mouse(MouseAction),
    Other,
}

/// What one event means for the session: keep browsing, confirm the current
/// selection, or cancel the whole session.
#[derive(Clone, Copy, Debug, PartialEq, Eq)]
pub enum EventOutcome {
    KeepBrowsing,
    Confirm,
    Cancel,
}

/// The selection one step down, clamped to the last item.
pub open spec fn spec_step_down(sel: int, n: int) -> int {
    if sel < n - 1 {
        sel + 1
    } else {
        sel
    }
}

/// The selection one page down, clamped to the last item.
pub open spec fn spec_jump_down(sel: int, jump: int, n: int) -> int {
    if sel + jump >= n {
        n - 1
    } else {
        sel + jump
    }
}

/// The selection chosen by a mouse press: the row under the pointer, when
/// the press falls in the left half of the terminal, within the list pane's
/// vertical band, and on an existing item; otherwise the selection stands.
pub open spec fn spec_click_selection(
    sel: int,
    off: int,
    column: int,
    row: int,
    width: int,
    height: int,
    n: int,
) -> int {
    let rows = spec_visible_rows(height);
    if column <= width / 2 && 1 <= row < rows + 1 && off + (row - 1) < n {
        off + (row - 1)
    } else {
        sel
    }
}

/// The selection after one event has been dispatched.
pub open spec fn spec_dispatched_selection(
    ev: InputEvent,
    sel: int,
    off: int,
    width: int,
    height: int,
    n: int,
) -> int {
    let jump = spec_page_jump(spec_visible_rows(height));
    match ev {
        InputEvent::Key(KeyPress::Down) => spec_step_down(sel, n),
        InputEvent::Key(KeyPress::Up) => sat_sub(sel, 1),
        InputEvent::Key(KeyPress::PageDown) => spec_jump_down(sel, jump, n),
        InputEvent::Key(KeyPress::PageUp) => sat_sub(sel, jump),
        InputEvent::Mouse(MouseAction::ScrollDown) => spec_jump_down(sel, jump, n),
        InputEvent::Mouse(MouseAction::ScrollUp) => sat_sub(sel, jump),
        InputEvent::Mouse(MouseAction::Press { column, row }) => spec_click_selection(
            sel,
            off,
            column as int,
            row as int,
            width,
            height,
            n,
        ),
        _ => sel,
    }
}

/// What one event means for the session, independent of any state: Enter
/// confirms, Esc cancels, everything else keeps browsing.
pub open spec fn spec_dispatch_outcome(ev: InputEvent) -> EventOutcome {
    match ev {
        InputEvent::Key(KeyPress::Enter) => EventOutcome::Confirm,
        InputEvent::Key(KeyPress::Esc) => EventOutcome::Cancel,
        _ => EventOutcome::KeepBrowsing,
    }
}

/// No event moves the selection out of the list: dispatching any event from
/// an in-range selection lands on an in-range selection.
pub proof fn lemma_dispatched_selection_in_range(
    ev: InputEvent,
    sel: int,
    off: int,
    width: int,
    height: int,
    n: int,
)
    requires
        0 <= sel < n,
        off >= 0,
    ensures
        0 <= spec_dispatched_selection(ev, sel, off, width, height, n) < n,
{
}

/// Dispatches one event: updates the selection as the event demands, never
/// moving it out of range, and reports whether the session goes on, is
/// confirmed, or is cancelled.
pub fn dispatch_event(
    ev: &InputEvent,
    selected: &mut usize,
    view_offset: usize,
    width: u16,
    height: u16,
    item_count: usize,
) -> (o: EventOutcome)
    requires
        *old(selected) < item_count,
    ensures
        *final(selected) == spec_dispatched_selection(
            *ev,
            *old(selected) as int,
            view_offset as int,
            width as int,
            height as int,
            item_count as int,
        ),
        o == spec_dispatch_outcome(*ev),
        *final(selected) < item_count,
{
    let rows = visible_list_rows(height);
    let jump = page_jump(rows);
    match ev {
        InputEvent::Key(KeyPress::Down) => {
            if *selected < item_count - 1 {
                *selected = *selected + 1;
            }
            EventOutcome::KeepBrowsing
        },
        InputEvent::Key(KeyPress::Up) => {
            if *selected > 0 {
                *selected = *selected - 1;
            }
            EventOutcome::KeepBrowsing
        },
        InputEvent::Key(KeyPress::PageDown) | InputEvent::Mouse(MouseAction::ScrollDown) => {
            if jump >= item_count - *selected {
                *selected = item_count - 1;
            } else {
                *selected = *selected + jump;
            }
            EventOutcome::KeepBrowsing
        },
        InputEvent::Key(KeyPress::PageUp) | InputEvent::Mouse(MouseAction::ScrollUp) => {
            if *selected < jump {
                *selected = 0;
            } else {
                *selected = *selected - jump;
            }
            EventOutcome::KeepBrowsing
        },
        InputEvent::Key(KeyPress::Enter) => EventOutcome::Confirm,
        InputEvent::Key(KeyPress::Esc) => EventOutcome::Cancel,
        InputEvent::Mouse(MouseAction::Press { column, row }) => {
            if *column <= width / 2 && *row >= 1 && (*row as usize) < rows + 1 {
                let delta = (*row - 1) as usize;
                if view_offset < item_count && delta < item_count - view_offset {
                    *selected = view_offset + delta;
                }
            }
            EventOutcome::KeepBrowsing
        },
        _ => EventOutcome::KeepBrowsing,
    }
}

} // verus!
