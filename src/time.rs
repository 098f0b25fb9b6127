use vstd::prelude::*;

verus! {

/// Milliseconds in one second.
pub const MILLIS_PER_SEC: u64 = 1000;

/// `a - b`, or zero where `b` exceeds `a`.
pub open spec fn sat_sub(a: int, b: int) -> int {
    if a >= b {
        a - b
    } else {
        0
    }
}

/// A length of time, in milliseconds.
#[derive(Clone, Copy, Debug, PartialEq, Eq, Structural)]
pub struct TimeSpan {
    pub millis: u64,
}

impl TimeSpan {
    pub fn from_millis(millis: u64) -> (r: TimeSpan)
        ensures
            r.millis == millis,
    {
        TimeSpan { millis }
    }

    pub fn from_secs(secs: u64) -> (r: TimeSpan)
        requires
            secs * 1000 <= u64::MAX,
        ensures
            r.millis == secs * 1000,
    {
        TimeSpan { millis: secs * MILLIS_PER_SEC }
    }

    /// Whole seconds in the span, rounded down.
    pub open spec fn as_secs_spec(&self) -> nat {
        (self.millis / 1000) as nat
    }

    /// Whole seconds in the span, rounded down.
    pub fn as_secs(&self) -> (r: u64)
        ensures
            r == self.as_secs_spec(),
    {
        self.millis / MILLIS_PER_SEC
    }

    pub fn is_zero(&self) -> (r: bool)
        ensures
            r == (self.millis == 0),
    {
        self.millis == 0
    }

    /// `self - other`, floored at zero.
    pub fn saturating_sub(self, other: TimeSpan) -> (r: TimeSpan)
        ensures
            r.millis == sat_sub(self.millis as int, other.millis as int),
    {
        if self.millis >= other.millis {
            TimeSpan { millis: self.millis - other.millis }
        } else {
            TimeSpan { millis: 0 }
        }
    }
}

/// A reading of a monotonic clock, in milliseconds from the clock's origin.
#[derive(Clone, Copy, Debug, PartialEq, Eq, Structural)]
pub struct Timestamp {
    pub millis: u64,
}

impl Timestamp {
    pub fn from_millis(millis: u64) -> (r: Timestamp)
        ensures
            r.millis == millis,
    {
        Timestamp { millis }
    }

    pub fn from_secs(secs: u64) -> (r: Timestamp)
        requires
            secs * 1000 <= u64::MAX,
        ensures
            r.millis == secs * 1000,
    {
        Timestamp { millis: secs * MILLIS_PER_SEC }
    }

    /// The time from `earlier` to `self`, or zero where `earlier` is later.
    pub fn saturating_duration_since(self, earlier: Timestamp) -> (r: TimeSpan)
        ensures
            r.millis == sat_sub(self.millis as int, earlier.millis as int),
    {
        if self.millis >= earlier.millis {
            TimeSpan { millis: self.millis - earlier.millis }
        } else {
            TimeSpan { millis: 0 }
        }
    }

    /// `self` moved later by `span`, held at the largest timestamp.
    pub fn saturating_add(self, span: TimeSpan) -> (r: Timestamp)
        ensures
            r.millis == if self.millis + span.millis <= u64::MAX {
                self.millis + span.millis
            } else {
                u64::MAX as int
            },
    {
        Timestamp { millis: self.millis.saturating_add(span.millis) }
    }

    /// `self` moved earlier by `span`, held at the clock's origin.
    pub fn saturating_sub(self, span: TimeSpan) -> (r: Timestamp)
        ensures
            r.millis == sat_sub(self.millis as int, span.millis as int),
    {
        if self.millis >= span.millis {
            Timestamp { millis: self.millis - span.millis }
        } else {
            Timestamp { millis: 0 }
        }
    }
}

} // verus!
