use vstd::prelude::*;

use crate::theme::Theme;

verus! {

pub const DEFAULT_FOCUS_MINUTES: u64 = 25;

pub const DEFAULT_SHORT_MINUTES: u64 = 5;

pub const DEFAULT_LONG_MINUTES: u64 = 15;

pub const DEFAULT_LONG_EVERY: u64 = 4;

pub const DEFAULT_NOTIFICATION_SECONDS: u64 = 10;

/// Milliseconds in one minute.
pub const MILLIS_PER_MINUTE: u64 = 60_000;

/// Whether a phase of `minutes` minutes can be measured in `u64` milliseconds.
pub open spec fn minutes_fit(minutes: u64) -> bool {
    minutes * 60_000 <= u64::MAX
}

/// The timer's configuration.
#[derive(Clone, Debug)]
pub struct Args {
    /// Focus minutes
    pub focus: u64,
    /// Short break minutes
    pub short: u64,
    /// Long break minutes
    pub long: u64,
    /// Number of focus sessions before a long break
    pub long_every: u64,
    pub theme: Theme,
    /// Whether phase changes raise desktop notifications
    pub notifications: bool,
    /// Notification sound name, passed through to the platform
    pub notification_sound: Option<String>,
    /// How long a notification stays up, in seconds
    pub notification_seconds: u64,
    /// Bundle identifier that notifications are attributed to, where the platform has one
    pub macos_bundle_id: Option<String>,
}

/// Why a configuration was refused.
#[derive(Clone, Copy, Debug, PartialEq, Eq, Structural)]
pub enum ConfigError {
    /// `long_every` was zero, so no count of focus sessions selects a long break.
    LongEveryZero,
    /// A phase was configured to last zero minutes.
    ZeroMinutes,
    /// A phase length in minutes is too large to be measured in milliseconds.
    MinutesTooLarge,
}

impl Args {
    /// A configuration the timer can run on.
    pub open spec fn valid(&self) -> bool {
        &&& self.long_every >= 1
        &&& self.focus >= 1
        &&& self.short >= 1
        &&& self.long >= 1
        &&& minutes_fit(self.focus)
        &&& minutes_fit(self.short)
        &&& minutes_fit(self.long)
    }

    /// The error that `check` reports on an invalid configuration.
    pub open spec fn error(&self) -> ConfigError {
        if self.long_every == 0 {
            ConfigError::LongEveryZero
        } else if self.focus == 0 || self.short == 0 || self.long == 0 {
            ConfigError::ZeroMinutes
        } else {
            ConfigError::MinutesTooLarge
        }
    }

    /// Accepts a valid configuration; otherwise says why it is refused: a zero
    /// `long_every` first, then a phase of zero minutes, then one too long to measure.
    pub fn check(&self) -> (r: Result<(), ConfigError>)
        ensures
            r is Ok <==> self.valid(),
            r is Err ==> r == Err::<(), ConfigError>(self.error()),
    {
        if self.long_every == 0 {
            return Err(ConfigError::LongEveryZero);
        }
        if self.focus == 0 || self.short == 0 || self.long == 0 {
            return Err(ConfigError::ZeroMinutes);
        }
        let max_minutes = u64::MAX / MILLIS_PER_MINUTE;
        if self.focus > max_minutes || self.short > max_minutes || self.long > max_minutes {
            return Err(ConfigError::MinutesTooLarge);
        }
        Ok(())
    }
}

impl Default for Args {
    /// 25 minutes of focus, 5 of short break, 15 of long break, a long break after
    /// every 4 focus sessions, notifications on for 10 seconds with the platform's sound.
    fn default() -> (r: Args)
        ensures
            r.focus == DEFAULT_FOCUS_MINUTES,
            r.short == DEFAULT_SHORT_MINUTES,
            r.long == DEFAULT_LONG_MINUTES,
            r.long_every == DEFAULT_LONG_EVERY,
            r.theme == Theme::Dracula,
            r.notifications,
            r.notification_sound is None,
            r.notification_seconds == DEFAULT_NOTIFICATION_SECONDS,
            r.macos_bundle_id is None,
            r.valid(),
    {
        Args {
            focus: DEFAULT_FOCUS_MINUTES,
            short: DEFAULT_SHORT_MINUTES,
            long: DEFAULT_LONG_MINUTES,
            long_every: DEFAULT_LONG_EVERY,
            theme: Theme::Dracula,
            notifications: true,
            notification_sound: None,
            notification_seconds: DEFAULT_NOTIFICATION_SECONDS,
            macos_bundle_id: None,
        }
    }
}

} // verus!
