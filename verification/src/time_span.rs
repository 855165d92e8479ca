//! A non-negative span of time, counted in whole seconds and nanoseconds.

use vstd::prelude::*;
use vstd::arithmetic::div_mod::lemma_fundamental_div_mod_converse;

verus! {

/// The number of nanoseconds in one second.
pub const NANOS_PER_SEC: u32 = 1_000_000_000;

/// A span of time: `secs` whole seconds plus `nanos` nanoseconds,
/// with `nanos` always below one second.
#[derive(Clone, Copy, Debug, PartialEq, Eq, Structural)]
pub struct TimeSpan {
    pub secs: u64,
    pub nanos: u32,
}

/// The well-formed span of `n` nanoseconds.
pub open spec fn from_total_nanos(n: int) -> TimeSpan {
    TimeSpan { secs: (n / 1_000_000_000int) as u64, nanos: (n % 1_000_000_000int) as u32 }
}

/// `d - e`, or zero where `e` is the longer span.
pub open spec fn saturating_sub(d: TimeSpan, e: TimeSpan) -> TimeSpan {
    if d.total_nanos() < e.total_nanos() {
        TimeSpan { secs: 0, nanos: 0 }
    } else {
        from_total_nanos(d.total_nanos() - e.total_nanos())
    }
}

/// A well-formed span is determined by its length in nanoseconds.
pub proof fn lemma_from_total_nanos(t: TimeSpan)
    requires
        t.wf(),
    ensures
        from_total_nanos(t.total_nanos()) == t,
{
    lemma_fundamental_div_mod_converse(t.total_nanos(), 1_000_000_000int, t.secs as int, t.nanos as int);
}

/// `from_total_nanos` gives a well-formed span of exactly `n` nanoseconds,
/// for any `n` a span can hold.
pub proof fn lemma_from_total_nanos_total(n: int)
    requires
        0 <= n < 0x1_0000_0000_0000_0000int * 1_000_000_000int,
    ensures
        from_total_nanos(n).wf(),
        from_total_nanos(n).total_nanos() == n,
{
    vstd::arithmetic::div_mod::lemma_fundamental_div_mod(n, 1_000_000_000int);
    vstd::arithmetic::div_mod::lemma_div_pos_is_pos(n, 1_000_000_000int);
    vstd::arithmetic::div_mod::lemma_mod_pos_bound(n, 1_000_000_000int);
    vstd::arithmetic::div_mod::lemma_div_by_multiple_is_strongly_ordered(
        n,
        0x1_0000_0000_0000_0000int * 1_000_000_000int,
        0x1_0000_0000_0000_0000int,
        1_000_000_000int,
    );
    vstd::arithmetic::div_mod::lemma_div_by_multiple(0x1_0000_0000_0000_0000int, 1_000_000_000int);
}

impl TimeSpan {
    /// Well-formedness: the nanosecond part is below one second.
    pub open spec fn wf(self) -> bool {
        self.nanos < NANOS_PER_SEC
    }

    /// The span measured in nanoseconds.
    pub open spec fn total_nanos(self) -> int {
        self.secs * 1_000_000_000int + self.nanos
    }

    /// The span of length zero.
    pub fn zero() -> (r: TimeSpan)
        ensures
            r.wf(),
            r.total_nanos() == 0,
            r == (TimeSpan { secs: 0, nanos: 0 }),
    {
        TimeSpan { secs: 0, nanos: 0 }
    }

    /// A span of `secs` whole seconds.
    pub fn from_secs(secs: u64) -> (r: TimeSpan)
        ensures
            r.wf(),
            r == (TimeSpan { secs, nanos: 0 }),
    {
        TimeSpan { secs, nanos: 0 }
    }

    /// This span with its sub-second part dropped.
    pub fn whole_seconds(self) -> (r: TimeSpan)
        ensures
            r == (TimeSpan { secs: self.secs, nanos: 0 }),
    {
        TimeSpan { secs: self.secs, nanos: 0 }
    }

    /// `self - other`, or `None` where `other` is longer than `self`.
    pub fn checked_sub(self, other: TimeSpan) -> (r: Option<TimeSpan>)
        requires
            self.wf(),
            other.wf(),
        ensures
            r is None <==> self.total_nanos() < other.total_nanos(),
            r matches Some(d) ==> d.wf() && d.total_nanos() == self.total_nanos() - other.total_nanos()
                && d == from_total_nanos(self.total_nanos() - other.total_nanos()),
    {
        let r = self.checked_sub_parts(other);
        proof {
            if let Some(d) = r {
                lemma_from_total_nanos(d);
            }
        }
        r
    }

    fn checked_sub_parts(self, other: TimeSpan) -> (r: Option<TimeSpan>)
        requires
            self.wf(),
            other.wf(),
        ensures
            r is None <==> self.total_nanos() < other.total_nanos(),
            r matches Some(d) ==> d.wf() && d.total_nanos() == self.total_nanos() - other.total_nanos(),
    {
        if self.secs < other.secs {
            None
        } else if self.secs == other.secs {
            if self.nanos < other.nanos {
                None
            } else {
                Some(TimeSpan { secs: 0, nanos: self.nanos - other.nanos })
            }
        } else if self.nanos >= other.nanos {
            Some(TimeSpan { secs: self.secs - other.secs, nanos: self.nanos - other.nanos })
        } else {
            Some(
                TimeSpan {
                    secs: self.secs - other.secs - 1,
                    nanos: self.nanos + (NANOS_PER_SEC - other.nanos),
                },
            )
        }
    }
}

} // verus!
