//! Laws of the session controller, proved over the transition functions
//! [`route`](crate::session::route) and [`step`](crate::session::step) that
//! every executable method is specified against.

use vstd::prelude::*;

use crate::session::{route, step, with_dirty, Action, AppMode, AppV, EventV, KeyInput};

verus! {

/// The state reached by a sequence of events, one `step` at a time.
pub open spec fn run_events(s: AppV, evs: Seq<EventV>) -> AppV
    decreases evs.len(),
{
    if evs.len() == 0 {
        s
    } else {
        run_events(step(s, evs[0]), evs.subrange(1, evs.len() as int))
    }
}

/// The only events that can mark the buffer clean: a successful write of a
/// prepared save, whether from the save command or from quit confirmation.
pub open spec fn clears_modified(ev: EventV) -> bool {
    ||| ev matches EventV::SaveFinished(true, _)
    ||| ev matches EventV::QuitSaveFinished(true, _)
}

/// No single step marks the buffer clean, except a successful save.
pub proof fn lemma_step_keeps_modified(s: AppV, ev: EventV)
    requires
        s.is_modified,
        !clears_modified(ev),
    ensures
        step(s, ev).is_modified,
{
}

/// Once the buffer is dirty, it stays dirty through any sequence of events
/// that holds no successful save.
pub proof fn lemma_modified_persists(s: AppV, evs: Seq<EventV>)
    requires
        s.is_modified,
        forall|i: int| 0 <= i < evs.len() ==> !clears_modified(evs[i]),
    ensures
        run_events(s, evs).is_modified,
    decreases evs.len(),
{
    if evs.len() > 0 {
        lemma_step_keeps_modified(s, evs[0]);
        lemma_modified_persists(step(s, evs[0]), evs.subrange(1, evs.len() as int));
    }
}

/// A mutating edit keystroke marks the buffer dirty, and it stays dirty
/// through everything that follows until a successful save: from any state,
/// after any sequence of events whose position `i` is a mutating buffer
/// edit and which holds no successful save thereafter, the buffer is dirty.
pub proof fn lemma_first_edit_sticks(s: AppV, evs: Seq<EventV>, i: int)
    requires
        0 <= i < evs.len(),
        evs[i] == EventV::BufferEdited(true),
        forall|j: int| i < j < evs.len() ==> !clears_modified(evs[j]),
    ensures
        run_events(s, evs).is_modified,
    decreases i,
{
    if i == 0 {
        assert(step(s, evs[0]) == with_dirty(s));
        lemma_modified_persists(step(s, evs[0]), evs.subrange(1, evs.len() as int));
    } else {
        let rest = evs.subrange(1, evs.len() as int);
        assert(rest[i - 1] == evs[i]);
        lemma_first_edit_sticks(step(s, evs[0]), rest, i - 1);
    }
}

/// While an AI task is outstanding, no keystroke other than the quit
/// combination changes anything: the state is untouched and the action asks
/// the driver for nothing, so the buffer cannot be mutated either.
pub proof fn lemma_processing_ignores_keys(s: AppV, k: KeyInput)
    requires
        s.mode == AppMode::Processing,
        k != KeyInput::Ctrl('q'),
    ensures
        route(s, k) == (s, Action::Ignore),
{
}

/// The quit combination while an AI task is outstanding only requests quit:
/// the mode stays `Processing`, so no stray dispatch or edit can follow.
pub proof fn lemma_processing_quit(s: AppV)
    requires
        s.mode == AppMode::Processing,
    ensures
        route(s, KeyInput::Ctrl('q')) == (
            AppV { should_quit: true, ..s },
            Action::Ignore,
        ),
{
}

/// However many keystrokes arrive while an AI task is outstanding, the
/// state is exactly what it was, as long as none of them is the quit
/// combination: the session waits, untouched, for the one reconciliation.
pub proof fn lemma_processing_locked(s: AppV, ks: Seq<KeyInput>)
    requires
        s.mode == AppMode::Processing,
        forall|i: int| 0 <= i < ks.len() ==> ks[i] != KeyInput::Ctrl('q'),
    ensures
        run_events(s, ks.map_values(|k: KeyInput| EventV::Key(k))) == s,
    decreases ks.len(),
{
    let evs = ks.map_values(|k: KeyInput| EventV::Key(k));
    if ks.len() > 0 {
        lemma_processing_ignores_keys(s, ks[0]);
        assert(step(s, evs[0]) == s);
        assert(evs.subrange(1, evs.len() as int) =~~= ks.subrange(1, ks.len() as int).map_values(
            |k: KeyInput| EventV::Key(k),
        ));
        lemma_processing_locked(s, ks.subrange(1, ks.len() as int));
    }
}

/// Processing mode is entered by dispatch alone: if a step lands in
/// `Processing` from some other mode, that step was the enter keystroke in
/// prompting mode.  With `apply_ai_result` demanding `Processing` and
/// leaving `Normal`, each dispatched task is reconciled at most once.
pub proof fn lemma_processing_entered_only_by_dispatch(s: AppV, ev: EventV)
    requires
        s.mode != AppMode::Processing,
        step(s, ev).mode == AppMode::Processing,
    ensures
        s.mode == AppMode::Prompting,
        ev == EventV::Key(KeyInput::Enter),
{
}

/// Dispatch is only asked for from prompting mode, on enter: in particular,
/// never while a task is already outstanding.
pub proof fn lemma_single_dispatch(s: AppV, k: KeyInput)
    requires
        route(s, k).1 == Action::Dispatch,
    ensures
        s.mode == AppMode::Prompting,
        k == KeyInput::Enter,
        route(s, k).0.mode == AppMode::Processing,
{
}

/// Marking the buffer clean is owed to a successful save alone: whenever a
/// step turns the dirty flag off, that step was a successful write of a
/// prepared save.
pub proof fn lemma_only_save_clears_modified(s: AppV, ev: EventV)
    requires
        s.is_modified,
        !step(s, ev).is_modified,
    ensures
        clears_modified(ev),
{
}

/// The filename is never empty: once the session holds a non-empty name —
/// the sentinel or a real path — every step keeps it non-empty, since a
/// submitted save-as name is refused unless it trims to something.
pub proof fn lemma_filename_stays_nonempty(s: AppV, ev: EventV)
    requires
        s.filename.len() > 0,
    ensures
        step(s, ev).filename.len() > 0,
{
}

/// Quitting with unsaved changes never quits directly: in normal mode the
/// quit combination on a dirty buffer opens the confirmation dialog and
/// leaves the quit flag untouched.
pub proof fn lemma_quit_confirms_when_modified(s: AppV)
    requires
        s.mode == AppMode::Normal,
        s.is_modified,
    ensures
        route(s, KeyInput::Ctrl('q')).0.mode == AppMode::ConfirmQuit,
        route(s, KeyInput::Ctrl('q')).0.should_quit == s.should_quit,
        route(s, KeyInput::Ctrl('q')).0.is_modified,
{
}

} // verus!
