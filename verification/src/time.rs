//! Core time model: a non-negative sub-second-resolution duration value
//! with saturating arithmetic, mission-relative time, and the time-source
//! capability consumed by timing-dependent components.

use vstd::prelude::*;

verus! {

pub const NANOS_PER_SEC: u32 = 1_000_000_000;

/// The largest value a `TimeDelta` can hold, in nanoseconds.
pub open spec fn max_delta_nanos() -> int {
    u64::MAX * 1_000_000_000 + 999_999_999
}

/// A non-negative span of time with nanosecond resolution: whole seconds
/// plus a sub-second nanosecond part below one billion. Arithmetic on it
/// saturates instead of wrapping or faulting: clock irregularities degrade
/// to a zero or maximal reading, never to a panic.
#[derive(Copy, Clone, Debug, PartialEq, Eq, PartialOrd, Ord, Structural)]
pub struct TimeDelta {
    secs: u64,
    nanos: u32,
}

impl View for TimeDelta {
    type V = int;

    /// The span in nanoseconds.
    closed spec fn view(&self) -> int {
        self.secs * 1_000_000_000 + self.nanos
    }
}

impl TimeDelta {
    /// The nanosecond part is always a proper sub-second count.
    #[verifier::type_invariant]
    spec fn inv(self) -> bool {
        self.nanos < 1_000_000_000
    }

    /// The zero span.
    pub fn zero() -> (r: Self)
        ensures
            r@ == 0,
    {
        TimeDelta { secs: 0, nanos: 0 }
    }

    /// A span of whole seconds.
    pub fn from_secs(secs: u64) -> (r: Self)
        ensures
            r@ == secs * 1_000_000_000,
    {
        TimeDelta { secs, nanos: 0 }
    }

    /// A span of `secs` seconds plus `nanos` nanoseconds; the nanosecond
    /// part must be a proper sub-second count.
    pub fn new(secs: u64, nanos: u32) -> (r: Self)
        requires
            nanos < 1_000_000_000,
        ensures
            r@ == secs * 1_000_000_000 + nanos,
    {
        TimeDelta { secs, nanos }
    }

    /// The whole-second part of the span.
    pub fn as_secs(&self) -> (r: u64)
        ensures
            r == self@ / 1_000_000_000,
    {
        proof {
            use_type_invariant(self);
            vstd::arithmetic::div_mod::lemma_fundamental_div_mod_converse(
                self@,
                1_000_000_000,
                self.secs as int,
                self.nanos as int,
            );
        }
        self.secs
    }

    /// The sub-second part of the span, in nanoseconds.
    pub fn subsec_nanos(&self) -> (r: u32)
        ensures
            r == self@ % 1_000_000_000,
            r < 1_000_000_000,
    {
        proof {
            use_type_invariant(self);
            vstd::arithmetic::div_mod::lemma_fundamental_div_mod_converse(
                self@,
                1_000_000_000,
                self.secs as int,
                self.nanos as int,
            );
        }
        self.nanos
    }

    /// The sum of two spans, saturating at the largest representable span.
    /// The sum is never behind either operand.
    pub fn saturating_add(self, other: Self) -> (r: Self)
        ensures
            r@ == if self@ + other@ <= max_delta_nanos() {
                self@ + other@
            } else {
                max_delta_nanos()
            },
            r@ >= self@,
            r@ >= other@,
    {
        proof {
            use_type_invariant(self);
            use_type_invariant(other);
        }
        let nanos_sum = self.nanos + other.nanos;
        let carry: u64 = if nanos_sum >= NANOS_PER_SEC {
            1
        } else {
            0
        };
        let nanos = if nanos_sum >= NANOS_PER_SEC {
            nanos_sum - NANOS_PER_SEC
        } else {
            nanos_sum
        };
        if self.secs <= u64::MAX - other.secs {
            let secs = self.secs + other.secs;
            if carry == 0 {
                TimeDelta { secs, nanos }
            } else if secs < u64::MAX {
                TimeDelta { secs: secs + 1, nanos }
            } else {
                TimeDelta { secs: u64::MAX, nanos: 999_999_999 }
            }
        } else {
            TimeDelta { secs: u64::MAX, nanos: 999_999_999 }
        }
    }

    /// The difference of two spans, saturating at zero when the subtrahend
    /// is the larger: never an underflow, never a fault.
    pub fn saturating_sub(self, other: Self) -> (r: Self)
        ensures
            r@ == if self@ >= other@ {
                self@ - other@
            } else {
                0
            },
    {
        proof {
            use_type_invariant(self);
            use_type_invariant(other);
        }
        if self.secs > other.secs {
            if self.nanos >= other.nanos {
                TimeDelta { secs: self.secs - other.secs, nanos: self.nanos - other.nanos }
            } else {
                TimeDelta {
                    secs: self.secs - other.secs - 1,
                    nanos: self.nanos + NANOS_PER_SEC - other.nanos,
                }
            }
        } else if self.secs == other.secs && self.nanos >= other.nanos {
            TimeDelta { secs: 0, nanos: self.nanos - other.nanos }
        } else {
            TimeDelta { secs: 0, nanos: 0 }
        }
    }
}

/// Mission-relative, monotonic time: the elapsed span since the mission
/// epoch, used for log and telemetry correlation.
#[derive(Copy, Clone, Debug, Eq, PartialEq, Ord, PartialOrd, Structural)]
pub struct MissionTime(pub TimeDelta);

/// Selects between hardware-backed time and simulated time: `Real` permits
/// wall-clock reads at construction, `Simulated` stands for a virtual clock
/// advanced under external control.
#[derive(Copy, Clone, Debug, PartialEq, Eq, Structural)]
pub enum TimeMode {
    Real,
    Simulated,
}

/// Configuration for the time subsystem, immutable after construction.
/// When `mission_epoch_unix` is present, mission time's zero point is that
/// Unix instant (in whole seconds); when absent, it is process start.
#[derive(Copy, Clone, Debug)]
pub struct TimeConfig {
    pub mode: TimeMode,
    pub mission_epoch_unix: Option<u64>,
}

/// A source of time that can provide monotonic and mission time. Monotonic
/// time is the non-decreasing span since start, used for timeouts and
/// scheduling; mission time is the span since the mission epoch, used for
/// logs and telemetry. Both reads are total: they never fail.
pub trait TimeSource {
    /// The fixed offset, in nanoseconds, separating mission time from
    /// monotonic time: what of the mission had already elapsed when the
    /// source was constructed. The default, zero, suits a source whose
    /// mission starts at construction; it also lets ordinary Rust sources
    /// outside this crate (a simulated clock, say) implement the trait
    /// without supplying a specification. A source constructed against an
    /// earlier epoch has to supply its own.
    open spec fn mission_offset_nanos(&self) -> int {
        0
    }

    /// Elapsed time since boot/start.
    fn monotonic(&self) -> TimeDelta;

    /// Elapsed time since the mission epoch: however the clocks read, a
    /// mission reading is never behind the source's mission offset.
    fn mission_time(&self) -> (r: MissionTime)
        ensures
            r.0@ >= self.mission_offset_nanos(),
    ;
}

} // verus!
