use vstd::prelude::*;

use crate::state::{AppState, PhaseKind};
use crate::time::Timestamp;

verus! {

/// While the timer runs, at a moment from the phase's start up to its end, the time
/// elapsed and the time remaining add up to the phase's length.
pub proof fn lemma_elapsed_plus_remaining(s: AppState, now: Timestamp)
    requires
        !s.paused,
        s.phase_started_at.millis <= now.millis,
        now.millis - s.phase_started_at.millis <= s.current_phase.duration.millis,
    ensures
        s.elapsed(now) + s.remaining(now) == s.current_phase.duration.millis,
{
}

/// Progress lies between zero and one, its denominator is positive, and while the
/// timer runs it never goes down as time goes on.
pub proof fn lemma_progress_monotone(s: AppState, t1: Timestamp, t2: Timestamp)
    requires
        !s.paused,
        t1.millis <= t2.millis,
    ensures
        s.progress_den() >= 1,
        0 <= s.progress_num(t1) <= s.progress_den(),
        0 <= s.progress_num(t2) <= s.progress_den(),
        s.progress_num(t1) <= s.progress_num(t2),
{
}

/// While paused, elapsed time stands still: any two moments from the pause's start
/// on give the same elapsed time.
pub proof fn lemma_pause_freezes_elapsed(s: AppState, t1: Timestamp, t2: Timestamp)
    requires
        s.paused,
        s.paused_at is Some,
        s.paused_at->Some_0.millis <= t1.millis,
        t1.millis < t2.millis,
    ensures
        s.elapsed(t1) == s.elapsed(t2),
{
}

/// Pausing at `tp` and resuming at `tr` loses no time and adds none: throughout the
/// pause, and at the moment of resuming, the elapsed time is the one at `tp`.
pub proof fn lemma_resume_continuity(s: AppState, tp: Timestamp, t: Timestamp, tr: Timestamp)
    requires
        !s.paused,
        tp.millis <= t.millis,
        tp.millis <= tr.millis,
    ensures
        s.toggled_at(tp).paused,
        s.toggled_at(tp).elapsed(t) == s.elapsed(tp),
        !s.toggled_at(tp).toggled_at(tr).paused,
        s.toggled_at(tp).toggled_at(tr).elapsed(tr) == s.elapsed(tp),
{
}

/// Pausing and resuming at once leaves the phase where it was.
pub proof fn lemma_toggle_twice(s: AppState, now: Timestamp)
    requires
        !s.paused,
    ensures
        s.toggled_at(now).toggled_at(now) == (AppState { paused_at: None, ..s }),
{
}

/// Leaving a focus phase counts one more session and starts a long break exactly when
/// the new count is a multiple of `long_every`, a short break otherwise; leaving a
/// break starts a focus phase and keeps the count. The next phase has its configured
/// length and starts unpaused, and the timer stays well formed.
pub proof fn lemma_break_cadence(s: AppState, now: Timestamp)
    requires
        s.advance_allowed(),
    ensures
        s.current_phase.kind == PhaseKind::Focus ==> {
            &&& s.advanced_at(now).session_index == s.session_index + 1
            &&& s.advanced_at(now).current_phase.kind == PhaseKind::LongBreak <==> (
            s.session_index + 1) % (s.args.long_every as int) == 0
            &&& s.advanced_at(now).current_phase.kind == PhaseKind::ShortBreak <==> (
            s.session_index + 1) % (s.args.long_every as int) != 0
        },
        s.current_phase.kind != PhaseKind::Focus ==> {
            &&& s.advanced_at(now).session_index == s.session_index
            &&& s.advanced_at(now).current_phase.kind == PhaseKind::Focus
        },
        s.advanced_at(now).wf(),
        !s.advanced_at(now).paused,
        s.advanced_at(now).elapsed(now) == 0,
{
}

/// Focus and breaks alternate: from a focus phase, two phase changes pass through a
/// break and come back to focus with one more completed session.
pub proof fn lemma_focus_break_alternate(s: AppState, t1: Timestamp, t2: Timestamp)
    requires
        s.advance_allowed(),
        s.current_phase.kind == PhaseKind::Focus,
    ensures
        s.advanced_at(t1).current_phase.kind != PhaseKind::Focus,
        s.advanced_at(t1).advance_allowed(),
        s.advanced_at(t1).advanced_at(t2).current_phase.kind == PhaseKind::Focus,
        s.advanced_at(t1).advanced_at(t2).session_index == s.session_index + 1,
{
}

/// A skip always changes the phase, however much of it remains, even at the very
/// moment it started, and the new phase starts from zero elapsed time.
pub proof fn lemma_skip_always_transitions(s: AppState, now: Timestamp)
    requires
        s.advance_allowed(),
    ensures
        s.advanced_at(now).current_phase.kind != s.current_phase.kind,
        s.advanced_at(now).phase_started_at == now,
        s.advanced_at(now).elapsed(now) == 0,
{
}

} // verus!
