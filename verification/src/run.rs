//! A model of a whole session run, and what it guarantees.
//!
//! One `LoopTick` is everything one iteration of the event loop observes
//! from outside: whether an external stop was requested, and the input
//! event the poll delivered, if any. The loaded colours of each preset are
//! a fixed sequence — a preset file does not change under the session — with
//! `None` for a preset that fails to load. Over these, `spec_run` says what
//! state the session ends in and what the colour section of the external
//! document holds at every exit, including the rollback write on a cancel;
//! the lemmas below state the session's transactional guarantees.

use vstd::prelude::*;
use crate::colors::{ColorsView, spec_merge_colors};
use crate::input::{
    EventOutcome,
    InputEvent,
    lemma_dispatched_selection_in_range,
    spec_dispatch_outcome,
    spec_dispatched_selection,
};
use crate::session::{
    SessionStatus,
    SessionView,
    spec_after_input,
    spec_after_preview,
    spec_previewed_doc,
};
use crate::viewport::{
    lemma_adjusted_offset_in_range,
    lemma_adjusted_offset_visible,
    sat_sub,
    spec_visible_rows,
};

verus! {

/// What one loop iteration observes from outside: the external stop flag as
/// read at the top of the iteration, and the event the bounded poll
/// delivered (`None` when it timed out).
pub ghost struct LoopTick {
    pub stop: bool,
    pub ev: Option<InputEvent>,
}

/// A point of a session run: the session state, the colour section the
/// external document holds, and whether the loop is still going.
pub ghost struct RunPoint {
    pub state: SessionView,
    pub doc: ColorsView,
    pub status: SessionStatus,
}

/// The colours the selected preset loads to, or `None` past the end of the
/// list (the selection never is, but the model stays total).
pub open spec fn spec_loaded(loads: Seq<Option<ColorsView>>, sel: int) -> Option<ColorsView> {
    if 0 <= sel < loads.len() {
        loads[sel]
    } else {
        None
    }
}

/// One iteration of the event loop. A stop request observed at the top ends
/// the session cancelled, and the snapshot is written back. Otherwise the
/// preview is brought up to date for the current selection, then the
/// event — if the poll delivered one — is dispatched: a confirm ends the
/// session leaving the previewed document in place, a cancel ends it with
/// the snapshot written back, anything else keeps browsing.
pub open spec fn spec_iteration(
    r: RunPoint,
    loads: Seq<Option<ColorsView>>,
    tick: LoopTick,
    w: int,
    h: int,
    n: int,
) -> RunPoint {
    if tick.stop {
        RunPoint { doc: r.state.snapshot, status: SessionStatus::Cancelled, ..r }
    } else {
        let s1 = spec_after_preview(r.state);
        let d1 = spec_previewed_doc(r.state, r.doc, spec_loaded(loads, r.state.selected));
        match tick.ev {
            None => RunPoint { state: s1, doc: d1, status: SessionStatus::Browsing },
            Some(ev) => {
                let s2 = spec_after_input(s1, ev, w, h, n);
                match spec_dispatch_outcome(ev) {
                    EventOutcome::KeepBrowsing => RunPoint {
                        state: s2,
                        doc: d1,
                        status: SessionStatus::Browsing,
                    },
                    EventOutcome::Confirm => RunPoint {
                        state: s2,
                        doc: d1,
                        status: SessionStatus::Confirmed,
                    },
                    EventOutcome::Cancel => RunPoint {
                        state: s2,
                        doc: s1.snapshot,
                        status: SessionStatus::Cancelled,
                    },
                }
            },
        }
    }
}

/// A whole run: iterations are applied in order until one ends the session;
/// whatever ends it, the later ticks change nothing.
pub open spec fn spec_run(
    r: RunPoint,
    loads: Seq<Option<ColorsView>>,
    ticks: Seq<LoopTick>,
    w: int,
    h: int,
    n: int,
) -> RunPoint
    decreases ticks.len(),
{
    if ticks.len() == 0 || r.status != SessionStatus::Browsing {
        r
    } else {
        spec_run(spec_iteration(r, loads, ticks[0], w, h, n), loads, ticks.skip(1), w, h, n)
    }
}

/// The snapshot and the default colours captured at loop entry survive any
/// sequence of iterations unchanged.
pub proof fn lemma_snapshot_stable(
    r: RunPoint,
    loads: Seq<Option<ColorsView>>,
    ticks: Seq<LoopTick>,
    w: int,
    h: int,
    n: int,
)
    ensures
        spec_run(r, loads, ticks, w, h, n).state.snapshot == r.state.snapshot,
        spec_run(r, loads, ticks, w, h, n).state.defaults == r.state.defaults,
    decreases ticks.len(),
{
    if ticks.len() == 0 || r.status != SessionStatus::Browsing {
    } else {
        lemma_snapshot_stable(spec_iteration(r, loads, ticks[0], w, h, n), loads, ticks.skip(1), w, h, n);
    }
}

/// Rollback round-trip: however many previews a session wrote, if it ends
/// cancelled — by Esc or by an external stop — the colour section of the
/// external document ends exactly as the snapshot taken at loop entry, that
/// is, as it stood before the session began.
pub proof fn lemma_cancel_restores_document(
    r: RunPoint,
    loads: Seq<Option<ColorsView>>,
    ticks: Seq<LoopTick>,
    w: int,
    h: int,
    n: int,
)
    requires
        r.status == SessionStatus::Browsing,
    ensures
        spec_run(r, loads, ticks, w, h, n).status == SessionStatus::Cancelled ==> spec_run(
            r,
            loads,
            ticks,
            w,
            h,
            n,
        ).doc == r.state.snapshot,
    decreases ticks.len(),
{
    if ticks.len() == 0 {
    } else {
        let r1 = spec_iteration(r, loads, ticks[0], w, h, n);
        if r1.status == SessionStatus::Browsing {
            lemma_cancel_restores_document(r1, loads, ticks.skip(1), w, h, n);
        }
    }
}

/// The invariant the preview phase maintains: whenever the preview marker
/// points at a preset that loads, the document's colour section holds that
/// preset merged over the defaults.
pub open spec fn preview_tracks_document(r: RunPoint, loads: Seq<Option<ColorsView>>, n: int) -> bool {
    &&& 0 <= r.state.selected < n
    &&& 0 <= r.state.view_offset
    &&& match r.state.last_previewed {
        Some(i) => 0 <= i < n && match spec_loaded(loads, i) {
            Some(t) => r.doc == spec_merge_colors(r.state.defaults, t),
            None => true,
        },
        None => true,
    }
}

/// One iteration keeps `preview_tracks_document`, as long as it does not
/// cancel the session (a cancel replaces the document with the snapshot).
proof fn lemma_iteration_preserves_tracking(
    r: RunPoint,
    loads: Seq<Option<ColorsView>>,
    tick: LoopTick,
    w: int,
    h: int,
    n: int,
)
    requires
        n >= 1,
        preview_tracks_document(r, loads, n),
    ensures
        spec_iteration(r, loads, tick, w, h, n).status != SessionStatus::Cancelled
            ==> preview_tracks_document(spec_iteration(r, loads, tick, w, h, n), loads, n),
{
    if !tick.stop {
        let s1 = spec_after_preview(r.state);
        if tick.ev is Some {
            lemma_dispatched_selection_in_range(
                tick.ev->0,
                s1.selected,
                s1.view_offset,
                w,
                h,
                n,
            );
        }
    }
}

/// Confirm persistence: a session that ends confirmed on a preset that
/// loads leaves, as the colour section of the external document, exactly
/// that preset merged over the default colours.
pub proof fn lemma_confirm_persists(
    r: RunPoint,
    loads: Seq<Option<ColorsView>>,
    ticks: Seq<LoopTick>,
    w: int,
    h: int,
    n: int,
)
    requires
        n >= 1,
        r.status == SessionStatus::Browsing,
        preview_tracks_document(r, loads, n),
    ensures
        spec_run(r, loads, ticks, w, h, n).status == SessionStatus::Confirmed ==> match spec_loaded(
            loads,
            spec_run(r, loads, ticks, w, h, n).state.selected,
        ) {
            Some(t) => spec_run(r, loads, ticks, w, h, n).doc == spec_merge_colors(
                r.state.defaults,
                t,
            ),
            None => true,
        },
    decreases ticks.len(),
{
    if ticks.len() == 0 {
    } else {
        let r1 = spec_iteration(r, loads, ticks[0], w, h, n);
        lemma_iteration_preserves_tracking(r, loads, ticks[0], w, h, n);
        if r1.status == SessionStatus::Browsing {
            lemma_snapshot_stable(r1, loads, ticks.skip(1), w, h, n);
            lemma_confirm_persists(r1, loads, ticks.skip(1), w, h, n);
        } else if r1.status == SessionStatus::Confirmed {
            let s1 = spec_after_preview(r.state);
            assert(r1.state.last_previewed == Some(r1.state.selected));
        }
    }
}

/// The viewport invariant one completed iteration maintains: the selection
/// is in range, the scroll offset is within the legal scroll range, and the
/// selection lies inside the visible window.
pub open spec fn viewport_invariant(s: SessionView, rows: int, n: int) -> bool {
    &&& 0 <= s.selected < n
    &&& 0 <= s.view_offset <= sat_sub(n, rows)
    &&& s.view_offset <= s.selected < s.view_offset + rows
}

/// After any sequence of iterations, the selection is still visible: the
/// viewport invariant holds after every completed iteration of a run, for
/// any window of at least one row.
pub proof fn lemma_selection_always_visible(
    r: RunPoint,
    loads: Seq<Option<ColorsView>>,
    ticks: Seq<LoopTick>,
    w: int,
    h: int,
    n: int,
)
    requires
        n >= 1,
        spec_visible_rows(h) >= 1,
        viewport_invariant(r.state, spec_visible_rows(h), n),
    ensures
        viewport_invariant(spec_run(r, loads, ticks, w, h, n).state, spec_visible_rows(h), n),
    decreases ticks.len(),
{
    if ticks.len() == 0 || r.status != SessionStatus::Browsing {
    } else {
        let r1 = spec_iteration(r, loads, ticks[0], w, h, n);
        let rows = spec_visible_rows(h);
        if !ticks[0].stop && ticks[0].ev is Some {
            let s1 = spec_after_preview(r.state);
            let ev = ticks[0].ev->0;
            lemma_dispatched_selection_in_range(ev, s1.selected, s1.view_offset, w, h, n);
            if spec_dispatch_outcome(ev) == EventOutcome::KeepBrowsing {
                let sel2 = spec_dispatched_selection(ev, s1.selected, s1.view_offset, w, h, n);
                lemma_adjusted_offset_visible(s1.view_offset, sel2, rows, n);
                lemma_adjusted_offset_in_range(s1.view_offset, sel2, rows, n);
            }
        }
        lemma_selection_always_visible(r1, loads, ticks.skip(1), w, h, n);
    }
}

} // verus!
