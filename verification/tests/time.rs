use std::time::{SystemTime, UNIX_EPOCH};

use nomad::time::{TimeConfig, TimeDelta, TimeMode, TimeSource};
use nomad::time_service::TimeService;
use nomad::timesource::{
    epoch_offset, make_default_time_source, mission_from_monotonic, PosixTimeSource,
};

fn wall_now_secs() -> u64 {
    SystemTime::now()
        .duration_since(UNIX_EPOCH)
        .map(|d| d.as_secs())
        .unwrap_or(0)
}

#[test]
/// Exact construction and accessors of the duration value.
fn time_delta_parts() {
    let d = TimeDelta::new(42, 123_456_789);
    assert_eq!(d.as_secs(), 42);
    assert_eq!(d.subsec_nanos(), 123_456_789);

    let z = TimeDelta::zero();
    assert_eq!(z.as_secs(), 0);
    assert_eq!(z.subsec_nanos(), 0);

    let s = TimeDelta::from_secs(7);
    assert_eq!(s.as_secs(), 7);
    assert_eq!(s.subsec_nanos(), 0);
}

#[test]
/// Exact subtraction, including the nanosecond borrow.
fn time_delta_subtraction() {
    let a = TimeDelta::new(10, 500_000_000);
    let b = TimeDelta::new(4, 200_000_000);
    let d = a.saturating_sub(b);
    assert_eq!(d.as_secs(), 6);
    assert_eq!(d.subsec_nanos(), 300_000_000);

    // borrow from the seconds part
    let c = TimeDelta::new(4, 700_000_000);
    let d2 = a.saturating_sub(c);
    assert_eq!(d2.as_secs(), 5);
    assert_eq!(d2.subsec_nanos(), 800_000_000);
}

#[test]
/// Subtracting the larger span saturates at zero instead of underflowing.
fn time_delta_subtraction_saturates_at_zero() {
    let a = TimeDelta::new(3, 0);
    let b = TimeDelta::new(5, 999_999_999);
    let d = a.saturating_sub(b);
    assert_eq!(d.as_secs(), 0);
    assert_eq!(d.subsec_nanos(), 0);
}

#[test]
/// Exact addition, including the nanosecond carry.
fn time_delta_addition() {
    let a = TimeDelta::new(1, 600_000_000);
    let b = TimeDelta::new(2, 700_000_000);
    let s = a.saturating_add(b);
    assert_eq!(s.as_secs(), 4);
    assert_eq!(s.subsec_nanos(), 300_000_000);
}

#[test]
/// Addition past the largest representable span saturates there.
fn time_delta_addition_saturates_at_max() {
    let a = TimeDelta::new(u64::MAX, 999_999_999);
    let b = TimeDelta::new(1, 0);
    let s = a.saturating_add(b);
    assert_eq!(s.as_secs(), u64::MAX);
    assert_eq!(s.subsec_nanos(), 999_999_999);
}

#[test]
/// The epoch-alignment formula: wall time minus epoch, saturating at zero
/// for an epoch in the future.
fn epoch_offset_formula() {
    let wall = TimeDelta::new(1_000, 500);
    let off = epoch_offset(wall, 400);
    assert_eq!(off.as_secs(), 600);
    assert_eq!(off.subsec_nanos(), 500);

    let future = epoch_offset(wall, 2_000);
    assert_eq!(future.as_secs(), 0);
    assert_eq!(future.subsec_nanos(), 0);
}

#[test]
/// The mission-reading formula: monotonic reading plus offset, saturating
/// at the largest representable span.
fn mission_from_monotonic_formula() {
    let mono = TimeDelta::new(5, 250_000_000);
    let offset = TimeDelta::new(3, 850_000_000);
    let mission = mission_from_monotonic(mono, offset);
    assert_eq!(mission.0.as_secs(), 9);
    assert_eq!(mission.0.subsec_nanos(), 100_000_000);

    // a zero offset leaves the reading unchanged
    let same = mission_from_monotonic(mono, TimeDelta::zero());
    assert_eq!(same.0, nomad::time::MissionTime(mono).0);

    // past the largest representable span, the reading saturates there
    let sat = mission_from_monotonic(TimeDelta::new(u64::MAX, 0), TimeDelta::new(2, 0));
    assert_eq!(sat.0.as_secs(), u64::MAX);
    assert_eq!(sat.0.subsec_nanos(), 999_999_999);
}

#[test]
/// With no mission epoch, mission time at an instant agrees with monotonic
/// time at that instant, within clock-read tolerance.
fn mission_time_without_epoch_tracks_monotonic() {
    let cfg = TimeConfig { mode: TimeMode::Real, mission_epoch_unix: None };
    let source = PosixTimeSource::new(&cfg);

    let mono = source.monotonic();
    let mission = source.mission_time();

    // mission was read after mono, so it cannot be behind it
    let ahead = mission.0.saturating_sub(mono);
    assert_eq!(ahead.as_secs(), 0);
    let behind = mono.saturating_sub(mission.0);
    assert_eq!(behind.as_secs(), 0);
}

#[test]
/// With a mission epoch in the past, mission time runs ahead of monotonic
/// time by approximately the age of the epoch at construction.
fn mission_time_with_past_epoch_runs_ahead() {
    let lead: u64 = 1_000;
    let cfg = TimeConfig {
        mode: TimeMode::Real,
        mission_epoch_unix: Some(wall_now_secs() - lead),
    };
    let source = PosixTimeSource::new(&cfg);

    let mono = source.monotonic();
    let mission = source.mission_time();
    let ahead = mission.0.saturating_sub(mono);

    assert!(ahead.as_secs() >= lead - 2, "ahead by {} s", ahead.as_secs());
    assert!(ahead.as_secs() <= lead + 2, "ahead by {} s", ahead.as_secs());
}

#[test]
/// A mission epoch in the future saturates the offset at zero, so mission
/// time falls back to monotonic time.
fn mission_time_with_future_epoch_tracks_monotonic() {
    let cfg = TimeConfig {
        mode: TimeMode::Real,
        mission_epoch_unix: Some(wall_now_secs() + 100_000),
    };
    let source = make_default_time_source(&cfg);

    let mono = source.monotonic();
    let mission = source.mission_time();
    let ahead = mission.0.saturating_sub(mono);
    assert_eq!(ahead.as_secs(), 0);
}

#[test]
/// Monotonic readings never move backward.
fn monotonic_is_non_decreasing() {
    let cfg = TimeConfig { mode: TimeMode::Real, mission_epoch_unix: None };
    let service = TimeService::new(PosixTimeSource::new(&cfg));

    let t1 = service.monotonic();
    let t2 = service.monotonic();
    let t3 = service.monotonic();
    assert!(t1 <= t2);
    assert!(t2 <= t3);
}

#[test]
/// The service exposes its wrapped source.
fn time_service_exposes_inner_source() {
    let cfg = TimeConfig { mode: TimeMode::Real, mission_epoch_unix: None };
    let service = TimeService::new(PosixTimeSource::new(&cfg));

    let inner = service.inner();
    let m = inner.mission_time();
    let s = service.mission_time();
    assert!(m <= s);
}
