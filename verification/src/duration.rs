//! A span of time as whole seconds and nanoseconds, with the arithmetic the
//! playback clock and the recording length need.
use vstd::prelude::*;

verus! {

/// Nanoseconds in one second.
pub const NANOS_PER_SEC: u32 = 1_000_000_000;

/// The greatest number of nanoseconds a `Duration` can hold.
pub open spec fn max_nanos() -> int {
    u64::MAX as int * NANOS_PER_SEC as int + (NANOS_PER_SEC - 1)
}

/// A span of time: `secs` whole seconds and `nanos` more nanoseconds, where
/// `nanos` stays below one second.
#[derive(Debug, Clone, Copy)]
pub struct Duration {
    pub secs: u64,
    pub nanos: u32,
}

impl View for Duration {
    type V = int;

    /// The span in nanoseconds.
    open spec fn view(&self) -> int {
        self.secs as int * NANOS_PER_SEC as int + self.nanos as int
    }
}

impl Duration {
    /// The nanoseconds part lies below one second.
    pub open spec fn wf(&self) -> bool {
        self.nanos < NANOS_PER_SEC
    }

    /// A span of `secs` seconds and `nanos` nanoseconds; whole seconds in
    /// `nanos` carry over into the seconds.
    pub fn new(secs: u64, nanos: u32) -> (d: Duration)
        requires
            secs + nanos / NANOS_PER_SEC <= u64::MAX,
        ensures
            d.wf(),
            d@ == secs * NANOS_PER_SEC + nanos,
            d.secs == secs + nanos / NANOS_PER_SEC,
            d.nanos == nanos % NANOS_PER_SEC,
    {
        if nanos < NANOS_PER_SEC {
            Duration { secs, nanos }
        } else {
            let extra = (nanos / NANOS_PER_SEC) as u64;
            let secs = secs + extra;
            let nanos = nanos % NANOS_PER_SEC;
            Duration { secs, nanos }
        }
    }

    /// A span of `secs` whole seconds.
    pub fn from_secs(secs: u64) -> (d: Duration)
        ensures
            d.wf(),
            d@ == secs * NANOS_PER_SEC,
            d.secs == secs,
            d.nanos == 0,
    {
        Duration { secs, nanos: 0 }
    }

    /// The zero span.
    pub fn zero() -> (d: Duration)
        ensures
            d.wf(),
            d@ == 0,
    {
        Duration { secs: 0, nanos: 0 }
    }

    /// The whole seconds of the span.
    pub fn as_secs(&self) -> (secs: u64)
        requires
            self.wf(),
        ensures
            secs == self@ / NANOS_PER_SEC as int,
    {
        proof {
            lemma_split_nanos(self.secs as int, self.nanos as int);
        }
        self.secs
    }

    /// The nanoseconds beyond the whole seconds of the span.
    pub fn subsec_nanos(&self) -> (nanos: u32)
        requires
            self.wf(),
        ensures
            nanos == self@ % NANOS_PER_SEC as int,
    {
        proof {
            lemma_split_nanos(self.secs as int, self.nanos as int);
        }
        self.nanos
    }

    /// `self - rhs`, or zero where `rhs` is the longer span.
    pub fn saturating_sub(self, rhs: Duration) -> (d: Duration)
        requires
            self.wf(),
            rhs.wf(),
        ensures
            d.wf(),
            d@ == if self@ >= rhs@ {
                self@ - rhs@
            } else {
                0
            },
    {
        if self.secs > rhs.secs || (self.secs == rhs.secs && self.nanos >= rhs.nanos) {
            if self.nanos >= rhs.nanos {
                Duration { secs: self.secs - rhs.secs, nanos: self.nanos - rhs.nanos }
            } else {
                Duration {
                    secs: self.secs - rhs.secs - 1,
                    nanos: self.nanos + NANOS_PER_SEC - rhs.nanos,
                }
            }
        } else {
            proof {
                assert(self@ < rhs@) by (nonlinear_arith)
                    requires
                        self.secs < rhs.secs || (self.secs == rhs.secs && self.nanos < rhs.nanos),
                        self.nanos < NANOS_PER_SEC,
                        rhs.nanos < NANOS_PER_SEC,
                        self@ == self.secs as int * NANOS_PER_SEC as int + self.nanos as int,
                        rhs@ == rhs.secs as int * NANOS_PER_SEC as int + rhs.nanos as int,
                ;
            }
            Duration { secs: 0, nanos: 0 }
        }
    }

    /// `self + rhs`, or `None` where the sum does not fit.
    pub fn checked_add(self, rhs: Duration) -> (d: Option<Duration>)
        requires
            self.wf(),
            rhs.wf(),
        ensures
            match d {
                Some(sum) => sum.wf() && sum@ == self@ + rhs@,
                None => self@ + rhs@ > max_nanos(),
            },
    {
        let nanos = self.nanos + rhs.nanos;
        if nanos >= NANOS_PER_SEC {
            if self.secs < u64::MAX && rhs.secs <= u64::MAX - self.secs - 1 {
                Some(Duration { secs: self.secs + rhs.secs + 1, nanos: nanos - NANOS_PER_SEC })
            } else {
                proof {
                    assert(self@ + rhs@ > max_nanos()) by (nonlinear_arith)
                        requires
                            self.secs + rhs.secs + 1 > u64::MAX,
                            self.nanos + rhs.nanos >= NANOS_PER_SEC,
                            self@ == self.secs as int * NANOS_PER_SEC as int + self.nanos as int,
                            rhs@ == rhs.secs as int * NANOS_PER_SEC as int + rhs.nanos as int,
                    ;
                }
                None
            }
        } else {
            if rhs.secs <= u64::MAX - self.secs {
                Some(Duration { secs: self.secs + rhs.secs, nanos })
            } else {
                proof {
                    assert(self@ + rhs@ > max_nanos()) by (nonlinear_arith)
                        requires
                            self.secs + rhs.secs > u64::MAX,
                            self@ == self.secs as int * NANOS_PER_SEC as int + self.nanos as int,
                            rhs@ == rhs.secs as int * NANOS_PER_SEC as int + rhs.nanos as int,
                            self.nanos >= 0,
                            rhs.nanos >= 0,
                    ;
                }
                None
            }
        }
    }

    /// `self` is at least as long as `rhs`.
    pub fn ge(&self, rhs: &Duration) -> (longer: bool)
        requires
            self.wf(),
            rhs.wf(),
        ensures
            longer == (self@ >= rhs@),
    {
        proof {
            if self.secs < rhs.secs || (self.secs == rhs.secs && self.nanos < rhs.nanos) {
                assert(self@ < rhs@) by (nonlinear_arith)
                    requires
                        self.secs < rhs.secs || (self.secs == rhs.secs && self.nanos < rhs.nanos),
                        self.nanos < NANOS_PER_SEC,
                        rhs.nanos < NANOS_PER_SEC,
                        self@ == self.secs as int * NANOS_PER_SEC as int + self.nanos as int,
                        rhs@ == rhs.secs as int * NANOS_PER_SEC as int + rhs.nanos as int,
                ;
            } else {
                assert(self@ >= rhs@) by (nonlinear_arith)
                    requires
                        self.secs > rhs.secs || (self.secs == rhs.secs && self.nanos >= rhs.nanos),
                        self.nanos < NANOS_PER_SEC,
                        rhs.nanos < NANOS_PER_SEC,
                        self@ == self.secs as int * NANOS_PER_SEC as int + self.nanos as int,
                        rhs@ == rhs.secs as int * NANOS_PER_SEC as int + rhs.nanos as int,
                ;
            }
        }
        self.secs > rhs.secs || (self.secs == rhs.secs && self.nanos >= rhs.nanos)
    }
}

/// Splitting a span into seconds and nanoseconds is division by one second.
pub proof fn lemma_split_nanos(secs: int, nanos: int)
    requires
        secs >= 0,
        0 <= nanos < NANOS_PER_SEC,
    ensures
        (secs * NANOS_PER_SEC + nanos) / NANOS_PER_SEC as int == secs,
        (secs * NANOS_PER_SEC + nanos) % NANOS_PER_SEC as int == nanos,
{
    vstd::arithmetic::div_mod::lemma_fundamental_div_mod_converse(
        secs * NANOS_PER_SEC + nanos,
        NANOS_PER_SEC as int,
        secs,
        nanos,
    );
}

} // verus!
