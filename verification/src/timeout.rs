//! Deadlines for operations that wait on the device.

use vstd::prelude::*;

verus! {

/// A span of time: whole seconds plus nanoseconds.
#[derive(Debug, Clone, Copy, PartialEq, Eq, Structural)]
pub struct Timeout {
    pub secs: u64,
    pub nanos: u32,
}

impl Timeout {
    /// The span in nanoseconds.
    pub open spec fn nanos_of(self) -> nat {
        self.secs as nat * 1_000_000_000 + self.nanos as nat
    }

    /// What is left of the span once `elapsed` has passed: nothing where
    /// as much or more has passed, else the difference, as whole seconds
    /// and less than a second of nanoseconds. A difference of more seconds
    /// than the field holds is cut to the longest span of that form.
    pub open spec fn less_spec(self, elapsed: Timeout) -> Timeout {
        let left = self.nanos_of() - elapsed.nanos_of();
        if left <= 0 {
            Timeout { secs: 0, nanos: 0 }
        } else if left / 1_000_000_000 > u64::MAX {
            Timeout { secs: u64::MAX, nanos: 999_999_999 }
        } else {
            Timeout { secs: (left / 1_000_000_000) as u64, nanos: (left % 1_000_000_000) as u32 }
        }
    }

    /// Whether the nanoseconds are less than a second, as they are in
    /// every span that comes of a clock.
    pub open spec fn normal(self) -> bool {
        self.nanos < 1_000_000_000
    }

    /// What is left never exceeds the difference of the two spans, and
    /// nothing is left exactly where as much or more has passed. Of a
    /// normal span exactly the difference is left, again as a normal span.
    pub proof fn lemma_less_bounds(self, elapsed: Timeout)
        ensures
            self.less_spec(elapsed).nanos_of() == 0 <==> elapsed.nanos_of() >= self.nanos_of(),
            elapsed.nanos_of() < self.nanos_of() ==> self.less_spec(elapsed).nanos_of()
                <= self.nanos_of() - elapsed.nanos_of(),
            self.normal() ==> self.less_spec(elapsed).normal(),
            self.normal() && elapsed.nanos_of() < self.nanos_of() ==> self.less_spec(
                elapsed,
            ).nanos_of() == self.nanos_of() - elapsed.nanos_of(),
    {
    }

    /// Whether the span is empty.
    pub fn is_zero(&self) -> (b: bool)
        ensures
            b == (self.nanos_of() == 0),
    {
        self.secs == 0 && self.nanos == 0
    }

    /// What is left of the span once `elapsed` has passed.
    pub fn less(self, elapsed: Timeout) -> (r: Timeout)
        ensures
            r == self.less_spec(elapsed),
    {
        let whole: u128 = self.secs as u128 * 1_000_000_000 + self.nanos as u128;
        let passed: u128 = elapsed.secs as u128 * 1_000_000_000 + elapsed.nanos as u128;
        if passed >= whole {
            return Timeout { secs: 0, nanos: 0 };
        }
        let left: u128 = whole - passed;
        let secs: u128 = left / 1_000_000_000;
        if secs > u64::MAX as u128 {
            Timeout { secs: u64::MAX, nanos: 999_999_999 }
        } else {
            Timeout { secs: secs as u64, nanos: (left % 1_000_000_000) as u32 }
        }
    }

    /// A timeout of whole seconds.
    pub fn from_secs(secs: u64) -> (t: Timeout)
        ensures
            t == (Timeout { secs, nanos: 0 }),
    {
        Timeout { secs, nanos: 0 }
    }

    /// A timeout of milliseconds.
    pub fn from_millis(millis: u64) -> (t: Timeout)
        ensures
            t.secs == millis / 1000,
            t.nanos == (millis % 1000) * 1_000_000,
    {
        let rest: u32 = (millis % 1000) as u32;
        Timeout { secs: millis / 1000, nanos: rest * 1_000_000 }
    }
}

} // verus!
