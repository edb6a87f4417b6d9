//! Spans of media time, and how they read on screen.

use vstd::prelude::*;

use crate::text;
use crate::text::push_two_digits;

verus! {

/// Nanoseconds in one second.
pub const SECOND: u128 = 1_000_000_000;

/// Nanoseconds in one millisecond.
pub const MILLISECOND: u128 = 1_000_000;

/// A span of time, to the nanosecond.
#[derive(Debug, Clone, Copy, PartialEq, Eq, Structural)]
pub struct Duration {
    pub nanos: u128,
}

impl Duration {
    /// Whether there are no more whole seconds than 64 bits count.
    pub open spec fn fits(self) -> bool {
        self.nanos < 0x1_0000_0000_0000_0000 * SECOND
    }

    /// No time at all.
    pub fn zero() -> (d: Duration)
        ensures
            d.nanos == 0,
    {
        Duration { nanos: 0 }
    }

    pub fn from_nanos(nanos: u64) -> (d: Duration)
        ensures
            d.nanos == nanos,
    {
        Duration { nanos: nanos as u128 }
    }

    pub fn from_millis(millis: u64) -> (d: Duration)
        ensures
            d.nanos == millis * MILLISECOND,
    {
        Duration { nanos: millis as u128 * MILLISECOND }
    }

    pub fn from_secs(secs: u64) -> (d: Duration)
        ensures
            d.nanos == secs * SECOND,
    {
        Duration { nanos: secs as u128 * SECOND }
    }

    /// Whole nanoseconds in 64 bits, as messages carry them; what does not fit is
    /// cut off at the top.
    pub fn wire_nanos(self) -> (n: u64)
        ensures
            n == self.nanos % 0x1_0000_0000_0000_0000,
    {
        (self.nanos % 0x1_0000_0000_0000_0000) as u64
    }

    pub fn is_zero(self) -> (r: bool)
        ensures
            r == (self.nanos == 0),
    {
        self.nanos == 0
    }

    /// This span less `other`, or nothing where `other` is longer.
    pub fn saturating_sub(self, other: Duration) -> (d: Duration)
        ensures
            d.nanos == (if self.nanos > other.nanos {
                self.nanos - other.nanos
            } else {
                0
            }),
    {
        if self.nanos > other.nanos {
            Duration { nanos: self.nanos - other.nanos }
        } else {
            Duration { nanos: 0 }
        }
    }

    /// The shorter of two spans.
    pub fn min(self, other: Duration) -> (d: Duration)
        ensures
            d.nanos == (if self.nanos < other.nanos {
                self.nanos
            } else {
                other.nanos
            }),
    {
        if self.nanos < other.nanos {
            self
        } else {
            other
        }
    }

    /// The longer of two spans.
    pub fn max(self, other: Duration) -> (d: Duration)
        ensures
            d.nanos == (if self.nanos > other.nanos {
                self.nanos
            } else {
                other.nanos
            }),
    {
        if self.nanos > other.nanos {
            self
        } else {
            other
        }
    }
}

/// Seconds as a clock shows them: hours only where there are any.
pub open spec fn clock(secs: nat) -> Seq<char> {
    let h = secs / 3600;
    let m = (secs % 3600) / 60;
    let s = secs % 60;
    if h > 0 {
        text::two_digits(h) + seq![':'] + text::two_digits(m) + seq![':'] + text::two_digits(s)
    } else {
        text::two_digits(m) + seq![':'] + text::two_digits(s)
    }
}

/// `01:12:44` for anything an hour or longer, `12:44` below that.
pub fn format_time(d: Duration) -> (r: String)
    ensures
        r@ == clock((d.nanos / SECOND) as nat),
{
    let total: u128 = d.nanos / SECOND;
    let h: u128 = total / 3600;
    let m: u128 = (total % 3600) / 60;
    let s: u128 = total % 60;
    let mut r: String = String::new();
    if h > 0 {
        push_two_digits(&mut r, h);
        r.push(':');
    }
    push_two_digits(&mut r, m);
    r.push(':');
    push_two_digits(&mut r, s);
    proof {
        assert(r@ =~= clock(total as nat));
    }
    r
}

} // verus!
