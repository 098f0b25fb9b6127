use vstd::prelude::*;

use crate::args::{Args, ConfigError, MILLIS_PER_MINUTE};
use crate::clock::Clock;
use crate::notifications::{notice_for, notice_matches, Notice};
use crate::theme::Theme;
use crate::time::{sat_sub, TimeSpan, Timestamp, MILLIS_PER_SEC};

verus! {

/// The kinds of phase the timer cycles through.
#[derive(Clone, Copy, Debug, PartialEq, Eq, Structural)]
pub enum PhaseKind {
    Focus,
    ShortBreak,
    LongBreak,
}

/// A phase of the cycle and how long it lasts.
#[derive(Clone, Copy, Debug, PartialEq, Eq, Structural)]
pub struct Phase {
    pub kind: PhaseKind,
    pub duration: TimeSpan,
}

/// The configured minutes of a phase of `kind`.
pub open spec fn minutes_of(args: Args, kind: PhaseKind) -> u64 {
    match kind {
        PhaseKind::Focus => args.focus,
        PhaseKind::ShortBreak => args.short,
        PhaseKind::LongBreak => args.long,
    }
}

/// The phase of `kind` that `args` configures.
pub open spec fn phase_of(args: Args, kind: PhaseKind) -> Phase {
    Phase { kind, duration: TimeSpan { millis: (minutes_of(args, kind) * 60_000) as u64 } }
}

/// The break that follows the focus session that brings the count to `sessions`.
pub open spec fn break_after(sessions: int, long_every: int) -> PhaseKind {
    if sessions % long_every == 0 {
        PhaseKind::LongBreak
    } else {
        PhaseKind::ShortBreak
    }
}

/// `t` moved later by `span` milliseconds, held at the largest timestamp.
pub open spec fn shifted(t: Timestamp, span: int) -> Timestamp {
    Timestamp { millis: if t.millis + span <= u64::MAX { (t.millis + span) as u64 } else { u64::MAX } }
}

/// The phase of `kind` that `args` configures.
pub fn build_phase(args: &Args, kind: PhaseKind) -> (r: Phase)
    requires
        args.valid(),
    ensures
        r == phase_of(*args, kind),
{
    let minutes = match kind {
        PhaseKind::Focus => args.focus,
        PhaseKind::ShortBreak => args.short,
        PhaseKind::LongBreak => args.long,
    };
    Phase { kind, duration: TimeSpan { millis: minutes * MILLIS_PER_MINUTE } }
}

/// The running timer: the current phase, when it started, whether it is paused,
/// and how many focus sessions have been completed.
#[derive(Debug)]
pub struct AppState {
    pub args: Args,
    pub theme: Theme,
    /// Completed focus sessions.
    pub session_index: u64,
    pub current_phase: Phase,
    /// The logical start of the current phase, moved later by each pause.
    pub phase_started_at: Timestamp,
    pub paused: bool,
    /// When the current pause began.
    pub paused_at: Option<Timestamp>,
    /// The clock the operations without an explicit time read.
    pub clock: Clock,
}

impl AppState {
    /// The timer's invariant: a valid configuration, a current phase of the configured
    /// length, and a pause start exactly while paused.
    pub open spec fn wf(&self) -> bool {
        &&& self.args.valid()
        &&& self.current_phase == phase_of(self.args, self.current_phase.kind)
        &&& self.paused <==> self.paused_at is Some
    }

    /// The timer may leave its current phase: it is well formed, and a focus session
    /// can still be counted.
    pub open spec fn advance_allowed(&self) -> bool {
        &&& self.wf()
        &&& self.current_phase.kind == PhaseKind::Focus ==> self.session_index < u64::MAX
    }

    /// Milliseconds spent in the current phase at `now`, pauses excluded.
    pub open spec fn elapsed(&self, now: Timestamp) -> int {
        if self.paused {
            match self.paused_at {
                Some(p) => sat_sub(p.millis as int, self.phase_started_at.millis as int),
                None => 0,
            }
        } else {
            sat_sub(now.millis as int, self.phase_started_at.millis as int)
        }
    }

    /// Milliseconds left in the current phase at `now`.
    pub open spec fn remaining(&self, now: Timestamp) -> int {
        sat_sub(self.current_phase.duration.millis as int, self.elapsed(now))
    }

    /// The denominator of progress: the phase length, at least one second.
    pub open spec fn progress_den(&self) -> int {
        if self.current_phase.duration.millis >= 1000 {
            self.current_phase.duration.millis as int
        } else {
            1000
        }
    }

    /// The numerator of progress: the elapsed time, at most the denominator.
    pub open spec fn progress_num(&self, now: Timestamp) -> int {
        if self.elapsed(now) <= self.progress_den() {
            self.elapsed(now)
        } else {
            self.progress_den()
        }
    }

    /// The current phase restarted at `now`, unpaused.
    pub open spec fn reset_at(self, now: Timestamp) -> AppState {
        AppState { phase_started_at: now, paused: false, paused_at: None, ..self }
    }

    /// The state after pause is toggled at `now`: a pause begins, or the pause ends
    /// and the phase's start moves later by its length.
    pub open spec fn toggled_at(self, now: Timestamp) -> AppState {
        if self.paused {
            match self.paused_at {
                Some(p) => AppState {
                    phase_started_at: shifted(
                        self.phase_started_at,
                        sat_sub(now.millis as int, p.millis as int),
                    ),
                    paused: false,
                    paused_at: None,
                    ..self
                },
                None => AppState { paused: false, paused_at: None, ..self },
            }
        } else {
            AppState { paused: true, paused_at: Some(now), ..self }
        }
    }

    /// The kind of the phase that follows the current one.
    pub open spec fn next_kind(&self) -> PhaseKind {
        match self.current_phase.kind {
            PhaseKind::Focus => break_after(self.session_index + 1, self.args.long_every as int),
            _ => PhaseKind::Focus,
        }
    }

    /// The completed focus sessions once the current phase is left.
    pub open spec fn next_session_index(&self) -> u64 {
        match self.current_phase.kind {
            PhaseKind::Focus => (self.session_index + 1) as u64,
            _ => self.session_index,
        }
    }

    /// The state after the current phase is left at `now`: the next phase starts
    /// fresh and unpaused.
    pub open spec fn advanced_at(self, now: Timestamp) -> AppState {
        AppState {
            session_index: self.next_session_index(),
            current_phase: phase_of(self.args, self.next_kind()),
            ..self
        }.reset_at(now)
    }
}

impl AppState {
    /// A timer on `args` that reads `clock`, in its first focus phase, started at
    /// `now` and unpaused, with no completed sessions. Refuses an invalid configuration.
    pub fn new_at(args: Args, clock: Clock, now: Timestamp) -> (r: Result<AppState, ConfigError>)
        ensures
            r is Ok <==> args.valid(),
            r is Err ==> r->Err_0 == args.error(),
            r matches Ok(s) ==> {
                &&& s.wf()
                &&& s.args == args
                &&& s.theme == args.theme
                &&& s.session_index == 0
                &&& s.current_phase == phase_of(args, PhaseKind::Focus)
                &&& s.phase_started_at == now
                &&& !s.paused
                &&& s.paused_at is None
                &&& s.clock == clock
            },
    {
        match args.check() {
            Err(e) => Err(e),
            Ok(()) => {
                let theme = args.theme;
                let current_phase = build_phase(&args, PhaseKind::Focus);
                Ok(AppState {
                    args,
                    theme,
                    session_index: 0,
                    current_phase,
                    phase_started_at: now,
                    paused: false,
                    paused_at: None,
                    clock,
                })
            },
        }
    }

    /// A timer on `args` with a clock started now, in its first focus phase, started
    /// at the clock's first reading; see `new_at`.
    pub fn new(args: Args) -> (r: Result<AppState, ConfigError>)
        ensures
            r is Ok <==> args.valid(),
            r is Err ==> r->Err_0 == args.error(),
            r matches Ok(s) ==> {
                &&& s.wf()
                &&& s.args == args
                &&& s.theme == args.theme
                &&& s.session_index == 0
                &&& s.current_phase == phase_of(args, PhaseKind::Focus)
                &&& !s.paused
                &&& s.paused_at is None
            },
    {
        let clock = Clock::start();
        let now = clock.now();
        AppState::new_at(args, clock, now)
    }

    /// The present moment on the timer's clock.
    pub fn now(&self) -> (r: Timestamp) {
        self.clock.now()
    }

    /// Whether `advance_phase` and `skip` may be called.
    pub fn can_advance(&self) -> (r: bool)
        ensures
            r == self.advance_allowed(),
    {
        let counted = match self.current_phase.kind {
            PhaseKind::Focus => self.session_index < u64::MAX,
            _ => true,
        };
        let paused_consistent = match self.paused_at {
            Some(_) => self.paused,
            None => !self.paused,
        };
        let max_minutes = u64::MAX / MILLIS_PER_MINUTE;
        let args_valid = self.args.long_every >= 1 && 1 <= self.args.focus
            && self.args.focus <= max_minutes && 1 <= self.args.short && self.args.short
            <= max_minutes && 1 <= self.args.long && self.args.long <= max_minutes;
        if !args_valid {
            return false;
        }
        let expected = build_phase(&self.args, self.current_phase.kind);
        counted && paused_consistent && expected == self.current_phase
    }

    /// Time spent in the current phase at `now`, pauses excluded. While paused it is
    /// the time spent up to the start of the pause. Never negative: a `now` before the
    /// phase's start gives zero.
    pub fn elapsed_in_phase(&self, now: Timestamp) -> (r: TimeSpan)
        ensures
            r.millis == self.elapsed(now),
    {
        if self.paused {
            if let Some(paused_at) = self.paused_at {
                return paused_at.saturating_duration_since(self.phase_started_at);
            }
            return TimeSpan { millis: 0 };
        }
        now.saturating_duration_since(self.phase_started_at)
    }

    /// Time left in the current phase at `now`, zero once it has run out.
    pub fn time_remaining(&self, now: Timestamp) -> (r: TimeSpan)
        ensures
            r.millis == self.remaining(now),
    {
        self.current_phase.duration.saturating_sub(self.elapsed_in_phase(now))
    }

    /// Progress through the current phase at `now` as a fraction `(num, den)` in
    /// milliseconds: `den` is the phase length, at least one second, and `num` the
    /// elapsed time, at most `den`.
    pub fn progress_parts(&self, now: Timestamp) -> (r: (u64, u64))
        ensures
            r.0 == self.progress_num(now),
            r.1 == self.progress_den(),
    {
        let elapsed = self.elapsed_in_phase(now).millis;
        let total = if self.current_phase.duration.millis >= MILLIS_PER_SEC {
            self.current_phase.duration.millis
        } else {
            MILLIS_PER_SEC
        };
        if elapsed <= total {
            (elapsed, total)
        } else {
            (total, total)
        }
    }

    /// Pauses the timer at `now`, or, if it is paused, resumes it: the phase's start
    /// moves later by the length of the pause, so that the pause does not count as
    /// elapsed time.
    pub fn toggle_pause_at(&mut self, now: Timestamp)
        ensures
            *final(self) == old(self).toggled_at(now),
    {
        if self.paused {
            if let Some(paused_at) = self.paused_at {
                let paused_duration = now.saturating_duration_since(paused_at);
                self.phase_started_at = self.phase_started_at.saturating_add(paused_duration);
            }
            self.paused_at = None;
            self.paused = false;
        } else {
            self.paused = true;
            self.paused_at = Some(now);
        }
    }

    /// Pauses or resumes the timer now; see `toggle_pause_at`.
    pub fn toggle_pause(&mut self)
        ensures
            exists|now: Timestamp| *final(self) == #[trigger] old(self).toggled_at(now),
    {
        let now = self.clock.now();
        self.toggle_pause_at(now);
    }

    /// Leaves the current phase at `now` for the next one, which starts fresh and
    /// unpaused. Leaving a focus phase counts one more session; a long break follows
    /// exactly when the count is a multiple of `long_every`, a short break otherwise.
    /// Hands back the notification announcing the new phase, if the configuration
    /// asks for one.
    pub fn advance_phase_at(&mut self, now: Timestamp) -> (r: Option<Notice>)
        requires
            old(self).advance_allowed(),
        ensures
            *final(self) == old(self).advanced_at(now),
            final(self).wf(),
            notice_matches(final(self).args, final(self).current_phase.kind, r),
    {
        let next_kind = match self.current_phase.kind {
            PhaseKind::Focus => {
                self.session_index = self.session_index + 1;
                if self.session_index % self.args.long_every == 0 {
                    PhaseKind::LongBreak
                } else {
                    PhaseKind::ShortBreak
                }
            },
            PhaseKind::ShortBreak | PhaseKind::LongBreak => PhaseKind::Focus,
        };
        self.current_phase = build_phase(&self.args, next_kind);
        self.reset_phase_at(now);
        notice_for(&self.args, self.current_phase.kind)
    }

    /// Leaves the current phase now; see `advance_phase_at`.
    pub fn advance_phase(&mut self) -> (r: Option<Notice>)
        requires
            old(self).advance_allowed(),
        ensures
            exists|now: Timestamp| *final(self) == #[trigger] old(self).advanced_at(now),
            final(self).wf(),
            notice_matches(final(self).args, final(self).current_phase.kind, r),
    {
        let now = self.clock.now();
        self.advance_phase_at(now)
    }

    /// Leaves the current phase at `now`, however much of it remains.
    pub fn skip_at(&mut self, now: Timestamp) -> (r: Option<Notice>)
        requires
            old(self).advance_allowed(),
        ensures
            *final(self) == old(self).advanced_at(now),
            final(self).wf(),
            notice_matches(final(self).args, final(self).current_phase.kind, r),
    {
        self.advance_phase_at(now)
    }

    /// Leaves the current phase now, however much of it remains.
    pub fn skip(&mut self) -> (r: Option<Notice>)
        requires
            old(self).advance_allowed(),
        ensures
            exists|now: Timestamp| *final(self) == #[trigger] old(self).advanced_at(now),
            final(self).wf(),
            notice_matches(final(self).args, final(self).current_phase.kind, r),
    {
        self.advance_phase()
    }

    /// Restarts the current phase at `now`, unpaused; its kind and the session count stay.
    pub fn reset_phase_at(&mut self, now: Timestamp)
        ensures
            *final(self) == old(self).reset_at(now),
    {
        self.phase_started_at = now;
        self.paused = false;
        self.paused_at = None;
    }

    /// Restarts the current phase now, unpaused.
    pub fn reset_phase(&mut self)
        ensures
            exists|now: Timestamp| *final(self) == #[trigger] old(self).reset_at(now),
    {
        let now = self.clock.now();
        self.reset_phase_at(now);
    }
}

} // verus!
