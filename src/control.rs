use vstd::prelude::*;

use crate::notifications::{notice_matches, Notice};
use crate::state::AppState;
use crate::time::Timestamp;

verus! {

/// A key press, as far as the timer tells keys apart.
#[derive(Clone, Copy, Debug, PartialEq, Eq, Structural)]
pub enum Key {
    Char(char),
    Esc,
    Other,
}

/// What the user can ask of the running timer.
#[derive(Clone, Copy, Debug, PartialEq, Eq, Structural)]
pub enum Command {
    TogglePause,
    Skip,
    Reset,
    Quit,
}

/// Space toggles the pause, `n` skips, `r` resets, `q` and escape quit; other keys
/// mean nothing.
pub open spec fn command_of(key: Key) -> Option<Command> {
    match key {
        Key::Char(' ') => Some(Command::TogglePause),
        Key::Char('n') => Some(Command::Skip),
        Key::Char('r') => Some(Command::Reset),
        Key::Char('q') => Some(Command::Quit),
        Key::Esc => Some(Command::Quit),
        _ => None,
    }
}

/// The command that `key` stands for, if any.
pub fn command_for(key: Key) -> (r: Option<Command>)
    ensures
        r == command_of(key),
{
    match key {
        Key::Char(' ') => Some(Command::TogglePause),
        Key::Char('n') => Some(Command::Skip),
        Key::Char('r') => Some(Command::Reset),
        Key::Char('q') | Key::Esc => Some(Command::Quit),
        _ => None,
    }
}

impl AppState {
    /// The current phase has run out and the timer is not paused.
    pub open spec fn phase_due(&self, now: Timestamp) -> bool {
        self.remaining(now) == 0 && !self.paused
    }

    /// Whether the current phase has run out at `now` while the timer runs.
    pub fn is_phase_due(&self, now: Timestamp) -> (r: bool)
        ensures
            r == self.phase_due(now),
    {
        self.time_remaining(now).is_zero() && !self.paused
    }

    /// One tick of the timer at `now`: leaves the current phase if it has run out
    /// while the timer runs, and does nothing otherwise.
    pub fn tick_at(&mut self, now: Timestamp) -> (r: Option<Notice>)
        requires
            old(self).advance_allowed(),
        ensures
            old(self).phase_due(now) ==> *final(self) == old(self).advanced_at(now)
                && notice_matches(final(self).args, final(self).current_phase.kind, r),
            !old(self).phase_due(now) ==> *final(self) == *old(self) && r is None,
            final(self).wf(),
    {
        if self.is_phase_due(now) {
            self.advance_phase_at(now)
        } else {
            None
        }
    }

    /// Carries out `cmd` at `now`. Quitting leaves the state as it is; stopping is
    /// up to the caller.
    pub fn apply_at(&mut self, cmd: Command, now: Timestamp) -> (r: Option<Notice>)
        requires
            old(self).advance_allowed(),
        ensures
            cmd == Command::TogglePause ==> *final(self) == old(self).toggled_at(now) && r is None,
            cmd == Command::Skip ==> *final(self) == old(self).advanced_at(now)
                && notice_matches(final(self).args, final(self).current_phase.kind, r),
            cmd == Command::Reset ==> *final(self) == old(self).reset_at(now) && r is None,
            cmd == Command::Quit ==> *final(self) == *old(self) && r is None,
            final(self).wf(),
    {
        match cmd {
            Command::TogglePause => {
                self.toggle_pause_at(now);
                None
            },
            Command::Skip => self.skip_at(now),
            Command::Reset => {
                self.reset_phase_at(now);
                None
            },
            Command::Quit => None,
        }
    }
}

} // verus!
