use vstd::prelude::*;

verus! {

/// An hour of the day, valid when in `[0, 23]`.
#[derive(Clone, Copy, Debug, PartialEq, Eq, Structural)]
pub struct Hours(pub u8);

/// A minute count, valid when in `[0, 59]`.
#[derive(Clone, Copy, Debug, PartialEq, Eq, Structural)]
pub struct Minutes(pub u8);

/// A wall-clock point of day: hours and minutes.
#[derive(Clone, Copy, Debug, PartialEq, Eq, Structural)]
pub struct Time {
    pub hours: Hours,
    pub minutes: Minutes,
}

/// An elapsed amount, computed here as a component-wise absolute
/// difference between two times (not calendar subtraction).
#[derive(Clone, Copy, Debug, PartialEq, Eq, Structural)]
pub struct Duration {
    pub hours: Hours,
    pub minutes: Minutes,
}

impl Hours {
    pub open spec fn wf(self) -> bool {
        self.0 <= 23
    }
}

impl Minutes {
    pub open spec fn wf(self) -> bool {
        self.0 <= 59
    }
}

impl Time {
    pub open spec fn wf(self) -> bool {
        self.hours.wf() && self.minutes.wf()
    }

    /// What adding a minute offset yields: minutes wrap at 60 and carry
    /// into the hour, which wraps at 24.
    pub open spec fn add_spec(self, m: Minutes) -> Time {
        Time {
            hours: Hours(((self.hours.0 + (self.minutes.0 + m.0) / 60) % 24) as u8),
            minutes: Minutes(((self.minutes.0 + m.0) % 60) as u8),
        }
    }

    /// Add a minute offset to a time, carrying into the hour and
    /// wrapping around midnight.
    pub fn add(&self, m: &Minutes) -> (r: Time)
        requires
            self.wf(),
            m.wf(),
        ensures
            r == self.add_spec(*m),
            r.wf(),
    {
        let total: u8 = self.minutes.0 + m.0;
        Time { hours: Hours((self.hours.0 + total / 60) % 24), minutes: Minutes(total % 60) }
    }
}

impl Duration {
    pub open spec fn wf(self) -> bool {
        self.hours.wf() && self.minutes.wf()
    }
}

/// The absolute difference of two integers.
pub open spec fn abs_diff(a: int, b: int) -> int {
    if a >= b {
        a - b
    } else {
        b - a
    }
}

/// What `difference` yields: the absolute difference of the hour fields
/// and of the minute fields, each taken on its own.
pub open spec fn difference_spec(a: Time, b: Time) -> Duration {
    Duration {
        hours: Hours(abs_diff(a.hours.0 as int, b.hours.0 as int) as u8),
        minutes: Minutes(abs_diff(a.minutes.0 as int, b.minutes.0 as int) as u8),
    }
}

/// The component-wise absolute difference of two times.
pub fn difference(time_a: &Time, time_b: &Time) -> (r: Duration)
    requires
        time_a.wf(),
        time_b.wf(),
    ensures
        r == difference_spec(*time_a, *time_b),
        r.wf(),
{
    let hours_diff: u8 = if time_a.hours.0 >= time_b.hours.0 {
        time_a.hours.0 - time_b.hours.0
    } else {
        time_b.hours.0 - time_a.hours.0
    };
    let minutes_diff: u8 = if time_a.minutes.0 >= time_b.minutes.0 {
        time_a.minutes.0 - time_b.minutes.0
    } else {
        time_b.minutes.0 - time_a.minutes.0
    };
    Duration { hours: Hours(hours_diff), minutes: Minutes(minutes_diff) }
}

} // verus!
