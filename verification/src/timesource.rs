//! OS-backed time source: reads the platform's monotonic and wall clocks
//! through a handful of trusted declarations, and does all epoch-alignment
//! arithmetic on verified `TimeDelta` values.
//!
//! The wall clock is read exactly once, at construction, to compute the
//! mission-epoch offset; afterwards only the monotonic clock is consulted.

use vstd::prelude::*;
use crate::time::{max_delta_nanos, MissionTime, TimeConfig, TimeDelta, TimeSource};

verus! {

#[verifier::external_type_specification]
#[verifier::external_body]
pub struct ExInstant(std::time::Instant);

#[verifier::external_type_specification]
#[verifier::external_body]
pub struct ExSystemTime(std::time::SystemTime);

/// Relies on std::time::Instant::now: an opaque reading of the platform's
/// monotonic clock. Nothing is assumed of its value.
#[verifier::external_body]
fn instant_now() -> std::time::Instant {
    std::time::Instant::now()
}

/// Relies on std::time::Instant::checked_duration_since: the span from
/// `earlier` to `later`, or `None` when `earlier` is the later instant.
/// Nothing is assumed of the returned span's value.
#[verifier::external_body]
fn instant_duration_since(
    later: &std::time::Instant,
    earlier: &std::time::Instant,
) -> Option<core::time::Duration> {
    later.checked_duration_since(*earlier)
}

/// Relies on std::time::SystemTime::now: an opaque reading of the wall
/// clock. Nothing is assumed of its value.
#[verifier::external_body]
fn system_time_now() -> std::time::SystemTime {
    std::time::SystemTime::now()
}

/// Relies on std::time::SystemTime::duration_since (against UNIX_EPOCH):
/// the span from the Unix epoch to `t`, or `None` when the wall clock reads
/// earlier than the epoch.
#[verifier::external_body]
fn since_unix_epoch(t: &std::time::SystemTime) -> Option<core::time::Duration> {
    match t.duration_since(std::time::UNIX_EPOCH) {
        Ok(d) => Some(d),
        Err(_) => None,
    }
}

/// Relies on core::time::Duration::as_secs: the whole-second part of the
/// span.
#[verifier::external_body]
fn duration_secs(d: &core::time::Duration) -> u64 {
    d.as_secs()
}

/// Relies on core::time::Duration::subsec_nanos: the sub-second part of the
/// span; its documentation guarantees a value below one billion.
#[verifier::external_body]
fn duration_subsec_nanos(d: &core::time::Duration) -> (r: u32)
    ensures
        r < 1_000_000_000,
{
    d.subsec_nanos()
}

/// An opaque platform span as a `TimeDelta`.
fn duration_to_delta(d: &core::time::Duration) -> TimeDelta {
    TimeDelta::new(duration_secs(d), duration_subsec_nanos(d))
}

/// One wall-clock reading as the span since the Unix epoch; zero when the
/// wall clock reads earlier than the epoch.
fn read_wall_clock() -> TimeDelta {
    let now = system_time_now();
    match since_unix_epoch(&now) {
        Some(d) => duration_to_delta(&d),
        None => TimeDelta::zero(),
    }
}

/// The mission-epoch offset for a wall-clock reading of `wall` nanoseconds
/// since the Unix epoch and a mission epoch of `epoch_secs` whole Unix
/// seconds: `wall - epoch`, saturating at zero when the epoch lies in the
/// future relative to the reading.
pub open spec fn epoch_offset_model(wall: int, epoch_secs: int) -> int {
    if wall >= epoch_secs * 1_000_000_000 {
        wall - epoch_secs * 1_000_000_000
    } else {
        0
    }
}

/// The mission reading derived from a monotonic reading of `mono`
/// nanoseconds and a mission offset of `offset` nanoseconds: their sum,
/// saturating at the largest representable span.
pub open spec fn mission_model(mono: int, offset: int) -> int {
    if mono + offset <= max_delta_nanos() {
        mono + offset
    } else {
        max_delta_nanos()
    }
}

/// The mission-epoch offset for a wall-clock reading `wall_now` and a
/// mission epoch given in whole Unix seconds.
pub fn epoch_offset(wall_now: TimeDelta, mission_epoch_secs: u64) -> (r: TimeDelta)
    ensures
        r@ == epoch_offset_model(wall_now@, mission_epoch_secs as int),
{
    wall_now.saturating_sub(TimeDelta::from_secs(mission_epoch_secs))
}

/// The mission-time value for a monotonic reading `mono` and a mission
/// offset `offset`; never behind either.
pub fn mission_from_monotonic(mono: TimeDelta, offset: TimeDelta) -> (r: MissionTime)
    ensures
        r.0@ == mission_model(mono@, offset@),
        r.0@ >= mono@,
        r.0@ >= offset@,
{
    MissionTime(mono.saturating_add(offset))
}

/// Law: with no mission epoch the offset is zero, and a mission reading
/// equals the monotonic reading it was derived from.
pub proof fn lemma_mission_time_tracks_monotonic_without_epoch(mono: int)
    requires
        0 <= mono <= max_delta_nanos(),
    ensures
        mission_model(mono, 0) == mono,
{
}

/// Law: with a mission epoch of `epoch_secs` at or before the wall-clock
/// reading `wall` taken at construction, a mission reading exceeds the
/// monotonic reading it was derived from by exactly `wall - epoch`, as
/// long as the shifted reading stays representable.
pub proof fn lemma_mission_time_ahead_by_epoch_age(mono: int, wall: int, epoch_secs: int)
    requires
        0 <= mono,
        0 <= epoch_secs,
        epoch_secs * 1_000_000_000 <= wall,
        mono + epoch_offset_model(wall, epoch_secs) <= max_delta_nanos(),
    ensures
        mission_model(mono, epoch_offset_model(wall, epoch_secs)) - mono == wall - epoch_secs * 1_000_000_000,
{
}

/// POSIX time source backed by the OS monotonic clock.
///
/// `start_instant` is the monotonic reference captured at construction;
/// `mission_offset` shifts readings so that mission time counts from the
/// configured epoch: `mission_time() = (now - start_instant) +
/// mission_offset`, which equals `now - (start_instant - mission_offset)`.
pub struct PosixTimeSource {
    start_instant: std::time::Instant,
    mission_offset: TimeDelta,
}

impl PosixTimeSource {
    /// Captures the monotonic reference and, when a mission epoch is
    /// configured, reads the wall clock once to align mission time with it:
    /// `offset = max(0, wall_now - mission_epoch)`. Without an epoch,
    /// mission time starts at process start. The configured mode is not
    /// consulted here: this source always reads the real OS clocks, so a
    /// simulated deployment should construct a different `TimeSource`.
    pub fn new(cfg: &TimeConfig) -> (r: Self)
        ensures
            cfg.mission_epoch_unix is None ==> r.mission_offset_nanos() == 0,
    {
        let start_instant = instant_now();
        let mission_offset = match cfg.mission_epoch_unix {
            Some(mission_epoch_secs) => epoch_offset(read_wall_clock(), mission_epoch_secs),
            None => TimeDelta::zero(),
        };
        Self { start_instant, mission_offset }
    }
}

impl TimeSource for PosixTimeSource {
    /// The offset added to monotonic readings to obtain mission time.
    closed spec fn mission_offset_nanos(&self) -> int {
        self.mission_offset@
    }

    /// The span from the construction-time reference to now, saturating at
    /// zero if a clock irregularity would otherwise produce a negative
    /// span.
    fn monotonic(&self) -> TimeDelta {
        let now = instant_now();
        match instant_duration_since(&now, &self.start_instant) {
            Some(d) => duration_to_delta(&d),
            None => TimeDelta::zero(),
        }
    }

    /// Monotonic time shifted by the mission-epoch offset, with the same
    /// saturation policy.
    fn mission_time(&self) -> (r: MissionTime) {
        let since_start = self.monotonic();
        mission_from_monotonic(since_start, self.mission_offset)
    }
}

/// Factory for the default POSIX time source.
pub fn make_default_time_source(cfg: &TimeConfig) -> (r: PosixTimeSource)
    ensures
        cfg.mission_epoch_unix is None ==> r.mission_offset_nanos() == 0,
{
    PosixTimeSource::new(cfg)
}

} // verus!
