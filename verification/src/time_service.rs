//! The standard time service: a thin owner of a `TimeSource` that lets
//! other components query time. In a fuller system this is the place to
//! sync with external time, distribute time events, or offer scheduling
//! helpers.

use vstd::prelude::*;
use crate::time::{MissionTime, TimeDelta, TimeSource};

verus! {

/// Wraps a `TimeSource` and exposes it to the rest of the framework. Time
/// queries are read-only and side-effect-free once the service is
/// constructed.
pub struct TimeService<T: TimeSource> {
    source: T,
}

impl<T: TimeSource> TimeService<T> {
    /// The wrapped source.
    pub closed spec fn view(&self) -> T {
        self.source
    }

    pub fn new(source: T) -> (s: Self)
        ensures
            s@ == source,
    {
        Self { source }
    }

    /// Monotonic time since boot/start.
    pub fn monotonic(&self) -> TimeDelta {
        self.source.monotonic()
    }

    /// Mission elapsed time (MET) since the mission epoch: never behind the
    /// source's mission offset.
    pub fn mission_time(&self) -> (r: MissionTime)
        ensures
            r.0@ >= self@.mission_offset_nanos(),
    {
        self.source.mission_time()
    }

    /// Borrow the underlying source if you need additional behavior.
    pub fn inner(&self) -> (r: &T)
        ensures
            *r == self@,
    {
        &self.source
    }
}

} // verus!
