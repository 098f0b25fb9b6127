use vstd::prelude::*;
use vstd::string::StringExecFns;

use crate::state::PhaseKind;
use crate::theme::{palette, Rgb, Theme};
use crate::time::TimeSpan;

verus! {

/// The heading shown for a phase of `kind`.
pub open spec fn title_text(kind: PhaseKind) -> Seq<char> {
    match kind {
        PhaseKind::Focus => "Focus"@,
        PhaseKind::ShortBreak => "Short Break"@,
        PhaseKind::LongBreak => "Long Break"@,
    }
}

/// The heading shown for a phase of `kind`.
pub fn title_of(kind: PhaseKind) -> (r: &'static str)
    ensures
        r@ == title_text(kind),
{
    match kind {
        PhaseKind::Focus => "Focus",
        PhaseKind::ShortBreak => "Short Break",
        PhaseKind::LongBreak => "Long Break",
    }
}

/// The colour a phase of `kind` is drawn in: the theme's accent for focus, its
/// success colour for breaks.
pub fn phase_color(theme: Theme, kind: PhaseKind) -> (r: Rgb)
    ensures
        r == if kind == PhaseKind::Focus {
            palette(theme).1
        } else {
            palette(theme).2
        },
{
    let (_, accent, ok) = theme.colors();
    match kind {
        PhaseKind::Focus => accent,
        _ => ok,
    }
}

/// The decimal digit for `d`, taken below ten.
pub open spec fn digit_char(d: nat) -> char {
    if d == 0 {
        '0'
    } else if d == 1 {
        '1'
    } else if d == 2 {
        '2'
    } else if d == 3 {
        '3'
    } else if d == 4 {
        '4'
    } else if d == 5 {
        '5'
    } else if d == 6 {
        '6'
    } else if d == 7 {
        '7'
    } else if d == 8 {
        '8'
    } else {
        '9'
    }
}

/// `n` written in decimal, without leading zeros.
pub open spec fn decimal(n: nat) -> Seq<char>
    decreases n,
{
    if n < 10 {
        seq![digit_char(n)]
    } else {
        decimal(n / 10) + seq![digit_char(n % 10)]
    }
}

/// `n` written in decimal with at least two digits.
pub open spec fn two_digits(n: nat) -> Seq<char> {
    if n < 10 {
        seq!['0'] + decimal(n)
    } else {
        decimal(n)
    }
}

/// `secs` seconds written as minutes and seconds, `MM:SS`.
pub open spec fn mm_ss(secs: nat) -> Seq<char> {
    two_digits(secs / 60) + seq![':'] + two_digits(secs % 60)
}

fn digit_str(d: u64) -> (r: &'static str)
    requires
        d < 10,
    ensures
        r@ == seq![digit_char(d as nat)],
{
    proof {
        reveal_strlit("0");
        reveal_strlit("1");
        reveal_strlit("2");
        reveal_strlit("3");
        reveal_strlit("4");
        reveal_strlit("5");
        reveal_strlit("6");
        reveal_strlit("7");
        reveal_strlit("8");
        reveal_strlit("9");
    }
    match d {
        0 => "0",
        1 => "1",
        2 => "2",
        3 => "3",
        4 => "4",
        5 => "5",
        6 => "6",
        7 => "7",
        8 => "8",
        _ => "9",
    }
}

fn push_decimal(s: &mut String, n: u64)
    ensures
        final(s)@ == old(s)@ + decimal(n as nat),
    decreases n,
{
    if n >= 10 {
        push_decimal(s, n / 10);
    }
    s.append(digit_str(n % 10));
    assert(final(s)@ =~= old(s)@ + decimal(n as nat));
}

fn push_two_digits(s: &mut String, n: u64)
    ensures
        final(s)@ == old(s)@ + two_digits(n as nat),
{
    if n < 10 {
        proof {
            reveal_strlit("0");
        }
        s.append("0");
    }
    push_decimal(s, n);
    assert(final(s)@ =~= old(s)@ + two_digits(n as nat));
}

/// The whole seconds of `d` as minutes and seconds, each with at least two digits:
/// 125 seconds read `02:05`.
pub fn format_mm_ss(d: TimeSpan) -> (r: String)
    ensures
        r@ == mm_ss(d.as_secs_spec()),
{
    let total = d.as_secs();
    let minutes = total / 60;
    let seconds = total % 60;
    let mut s = String::new();
    push_two_digits(&mut s, minutes);
    proof {
        reveal_strlit(":");
    }
    s.append(":");
    push_two_digits(&mut s, seconds);
    assert(s@ =~= mm_ss(d.as_secs_spec()));
    s
}

} // verus!
