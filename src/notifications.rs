use vstd::prelude::*;

use crate::args::Args;
use crate::state::PhaseKind;

verus! {

/// A desktop notification announcing the start of a phase.
#[derive(Clone, Debug)]
pub struct Notice {
    /// The phase that has just started.
    pub kind: PhaseKind,
    pub summary: &'static str,
    pub body: &'static str,
    /// Sound name handed to the platform.
    pub sound: String,
    /// How long the notification stays up, in seconds.
    pub timeout_secs: u64,
}

pub open spec fn summary_text(kind: PhaseKind) -> Seq<char> {
    match kind {
        PhaseKind::Focus => "Rusty Pomo · Focus"@,
        PhaseKind::ShortBreak => "Rusty Pomo · Short Break"@,
        PhaseKind::LongBreak => "Rusty Pomo · Long Break"@,
    }
}

pub open spec fn body_text(kind: PhaseKind) -> Seq<char> {
    match kind {
        PhaseKind::Focus => "Let’s get to work."@,
        PhaseKind::ShortBreak => "Time for a quick breather."@,
        PhaseKind::LongBreak => "Enjoy a longer rest."@,
    }
}

/// The sound a notification asks for: the configured one, else the platform's default.
pub open spec fn sound_text(args: Args) -> Seq<char> {
    match args.notification_sound {
        Some(s) => s@,
        None => "default"@,
    }
}

/// What `notice_for` hands out: nothing where notifications are off.
pub open spec fn notice_matches(args: Args, kind: PhaseKind, r: Option<Notice>) -> bool {
    match r {
        None => !args.notifications,
        Some(n) => {
            &&& args.notifications
            &&& n.kind == kind
            &&& n.summary@ == summary_text(kind)
            &&& n.body@ == body_text(kind)
            &&& n.sound@ == sound_text(args)
            &&& n.timeout_secs == args.notification_seconds
        },
    }
}

/// The notification announcing that a phase of `kind` has started, if `args` asks for one.
pub fn notice_for(args: &Args, kind: PhaseKind) -> (r: Option<Notice>)
    ensures
        notice_matches(*args, kind, r),
{
    if !args.notifications {
        return None;
    }
    let (summary, body): (&'static str, &'static str) = match kind {
        PhaseKind::Focus => ("Rusty Pomo · Focus", "Let’s get to work."),
        PhaseKind::ShortBreak => ("Rusty Pomo · Short Break", "Time for a quick breather."),
        PhaseKind::LongBreak => ("Rusty Pomo · Long Break", "Enjoy a longer rest."),
    };
    let sound = match &args.notification_sound {
        Some(s) => s.clone(),
        None => "default".to_owned(),
    };
    Some(Notice { kind, summary, body, sound, timeout_secs: args.notification_seconds })
}

} // verus!
