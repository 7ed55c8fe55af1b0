//! The interactive session: one state record owned by the event loop, and
//! the decisions of one loop iteration.
//!
//! Every iteration first brings the live preview up to date — when the
//! selection has moved since the last preview, the selected preset is merged
//! over the default colours and the result is what must be written to the
//! external document — and then dispatches at most one input event. Enter
//! confirms and leaves the last written preview in place; Esc or an external
//! stop request cancels, and the snapshot taken before the session is what
//! must be written back.

use vstd::prelude::*;
use crate::colors::{Colors, ColorsView, merge_colors, spec_merge_colors};
use crate::input::{
    EventOutcome,
    InputEvent,
    dispatch_event,
    spec_dispatch_outcome,
    spec_dispatched_selection,
};
use crate::viewport::{
    adjust_view_offset,
    sat_sub,
    spec_adjusted_offset,
    spec_visible_rows,
    visible_list_rows,
};

verus! {

/// Whether the session is still browsing, was ended by a confirm, or was
/// ended by a cancel (Esc or an external stop request).
#[derive(Clone, Copy, Debug, PartialEq, Eq)]
pub enum SessionStatus {
    Browsing,
    Confirmed,
    Cancelled,
}

/// The state one session owns: the selection, the scroll offset, which item
/// the live preview currently shows, the colour section captured before the
/// session began, and the default colours every preset is merged over.
pub struct SessionState {
    pub selected: usize,
    pub view_offset: usize,
    pub last_previewed: Option<usize>,
    pub snapshot: Colors,
    pub defaults: Colors,
}

/// Mathematical model of a session state.
pub ghost struct SessionView {
    pub selected: int,
    pub view_offset: int,
    pub last_previewed: Option<int>,
    pub snapshot: ColorsView,
    pub defaults: ColorsView,
}

impl View for SessionState {
    type V = SessionView;

    open spec fn view(&self) -> SessionView {
        SessionView {
            selected: self.selected as int,
            view_offset: self.view_offset as int,
            last_previewed: match self.last_previewed {
                Some(i) => Some(i as int),
                None => None,
            },
            snapshot: self.snapshot@,
            defaults: self.defaults@,
        }
    }
}

/// Whether the live preview is out of date: the selection has moved since
/// the preview was last brought up to date (or no preview was made yet).
pub open spec fn spec_needs_preview(s: SessionView) -> bool {
    s.last_previewed != Some(s.selected)
}

/// The state once the preview has been brought up to date for the current
/// selection; nothing else changes.
pub open spec fn spec_after_preview(s: SessionView) -> SessionView {
    SessionView { last_previewed: Some(s.selected), ..s }
}

/// The colour section of the external document after the preview phase of
/// one iteration: when the preview was out of date and the selected preset
/// loaded, the preset merged over the defaults was written; a preset that
/// failed to load leaves the document as it was.
pub open spec fn spec_previewed_doc(
    s: SessionView,
    doc: ColorsView,
    loaded: Option<ColorsView>,
) -> ColorsView {
    if spec_needs_preview(s) {
        match loaded {
            Some(t) => spec_merge_colors(s.defaults, t),
            None => doc,
        }
    } else {
        doc
    }
}

/// The state after one input event: the selection moves as the event
/// demands, and while the session keeps browsing the scroll offset is
/// adjusted so the selection stays visible. A confirming or cancelling event
/// ends the loop at once and leaves the offset untouched.
pub open spec fn spec_after_input(s: SessionView, ev: InputEvent, w: int, h: int, n: int) -> SessionView {
    let sel = spec_dispatched_selection(ev, s.selected, s.view_offset, w, h, n);
    if spec_dispatch_outcome(ev) == EventOutcome::KeepBrowsing {
        SessionView {
            selected: sel,
            view_offset: spec_adjusted_offset(s.view_offset, sel, spec_visible_rows(h), n),
            ..s
        }
    } else {
        SessionView { selected: sel, ..s }
    }
}

/// The session status one event outcome leads to.
pub open spec fn spec_status_of(o: EventOutcome) -> SessionStatus {
    match o {
        EventOutcome::KeepBrowsing => SessionStatus::Browsing,
        EventOutcome::Confirm => SessionStatus::Confirmed,
        EventOutcome::Cancel => SessionStatus::Cancelled,
    }
}

impl SessionState {
    /// Opens a session: the selection and scroll offset start at the top of
    /// the list, no preview has been made, and the given snapshot and
    /// default colours are held for the whole session.
    pub fn new(snapshot: Colors, defaults: Colors) -> (s: SessionState)
        ensures
            s@ == (SessionView {
                selected: 0,
                view_offset: 0,
                last_previewed: None,
                snapshot: snapshot@,
                defaults: defaults@,
            }),
    {
        SessionState { selected: 0, view_offset: 0, last_previewed: None, snapshot, defaults }
    }

    /// Which preset the preview must be brought up to date for: the current
    /// selection when it moved since the last preview, nothing otherwise.
    pub fn preview_target(&self) -> (t: Option<usize>)
        ensures
            spec_needs_preview(self@) ==> t == Some(self.selected),
            !spec_needs_preview(self@) ==> t is None,
    {
        match self.last_previewed {
            Some(i) if i == self.selected => None,
            _ => Some(self.selected),
        }
    }

    /// Marks the preview as up to date for the current selection and, when
    /// the selected preset loaded, returns the colours that must now be
    /// written to the external document: the preset merged over the
    /// defaults. A preset that failed to load yields nothing to write, and
    /// the previous preview stays on disk.
    pub fn apply_preview(&mut self, loaded: Option<&Colors>) -> (w: Option<Colors>)
        ensures
            final(self)@ == spec_after_preview(old(self)@),
            match loaded {
                Some(t) => match w {
                    Some(m) => m@ == spec_merge_colors(old(self)@.defaults, t@),
                    None => false,
                },
                None => w is None,
            },
    {
        self.last_previewed = Some(self.selected);
        match loaded {
            Some(t) => Some(merge_colors(&self.defaults, t)),
            None => None,
        }
    }

    /// Dispatches one input event against the session: the selection moves
    /// as the event demands and never leaves the list, the scroll offset
    /// keeps the selection visible while browsing goes on, and the returned
    /// status says whether the session continues, was confirmed, or was
    /// cancelled. The snapshot, the defaults and the preview marker are
    /// untouched.
    pub fn handle_input(&mut self, ev: &InputEvent, width: u16, height: u16, item_count: usize) -> (st: SessionStatus)
        requires
            old(self).selected < item_count,
        ensures
            final(self)@ == spec_after_input(
                old(self)@,
                *ev,
                width as int,
                height as int,
                item_count as int,
            ),
            st == spec_status_of(spec_dispatch_outcome(*ev)),
            final(self).selected < item_count,
            final(self)@.snapshot == old(self)@.snapshot,
            final(self)@.defaults == old(self)@.defaults,
            final(self)@.last_previewed == old(self)@.last_previewed,
            st == SessionStatus::Browsing && spec_visible_rows(height as int) >= 1
                ==> final(self).view_offset <= final(self).selected
                    < final(self).view_offset + spec_visible_rows(height as int),
            old(self).view_offset <= sat_sub(item_count as int, spec_visible_rows(height as int))
                ==> final(self).view_offset
                    <= sat_sub(item_count as int, spec_visible_rows(height as int)),
    {
        let o = dispatch_event(ev, &mut self.selected, self.view_offset, width, height, item_count);
        match o {
            EventOutcome::KeepBrowsing => {
                let rows = visible_list_rows(height);
                adjust_view_offset(&mut self.view_offset, self.selected, rows, item_count);
                SessionStatus::Browsing
            },
            EventOutcome::Confirm => SessionStatus::Confirmed,
            EventOutcome::Cancel => SessionStatus::Cancelled,
        }
    }

    /// The colours that must be written back when the session ends without a
    /// confirm: exactly the snapshot captured before the session began.
    pub fn rollback_colors(&self) -> (r: Colors)
        ensures
            r@ == self@.snapshot,
    {
        self.snapshot.clone()
    }
}

} // verus!
