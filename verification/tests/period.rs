use os_monitor_service::clock::{Span, Timestamp};
use os_monitor_service::db::models::activity_state::{ActivityState, ActivityStateType};
use os_monitor_service::services::activity_state_service::{
    classify_tick, get_just_completed_activity_state, just_completed_period, period_if_representable,
    ActivityPeriod, WindowMode,
};
use time::OffsetDateTime;

const SEC: i128 = 1_000_000_000;

fn now() -> Timestamp {
    Timestamp::from_unix_nanos(OffsetDateTime::now_utc().unix_timestamp_nanos())
}

fn secs(n: u64) -> Span {
    Span::from_secs(n).unwrap()
}

fn before(t: Timestamp, seconds: i128) -> Timestamp {
    Timestamp::from_unix_nanos(t.nanos - seconds * SEC)
}

fn state_ending(start: Timestamp, end: Timestamp) -> ActivityState {
    let mut state = ActivityState::new().unwrap();
    state.start_time = Some(start);
    state.end_time = Some(end);
    state
}

fn assert_datetime_eq(left: Timestamp, right: Timestamp, tolerance: Span) {
    assert!(
        left.within(right, tolerance),
        "Times differ by more than {:?}: left={:?}, right={:?}",
        tolerance,
        left,
        right
    );
}

#[test]
fn test_get_just_completed_activity_state_no_last_activity_state() {
    let activity_period = get_just_completed_activity_state(None, secs(120)).unwrap();
    assert_datetime_eq(
        activity_period.start_time,
        before(now(), 120),
        Span::from_millis(1).unwrap(),
    );
    assert_datetime_eq(activity_period.end_time, now(), Span::from_millis(1).unwrap());
}

#[test]
fn test_get_just_completed_activity_state_last_activity_state_within_5_seconds() {
    let interval = 120;
    let activity_state = state_ending(before(now(), interval + 119), before(now(), interval + 2));
    let activity_period =
        get_just_completed_activity_state(Some(activity_state), secs(interval as u64)).unwrap();
    assert_datetime_eq(
        activity_period.start_time,
        activity_state.end_time.unwrap(),
        Span::from_millis(1).unwrap(),
    );
    assert_datetime_eq(
        activity_period.end_time,
        activity_state.end_time.unwrap().plus(secs(120)),
        Span::from_millis(1).unwrap(),
    );
}

#[test]
fn test_get_just_completed_activity_state_last_activity_state_within_5_seconds_before() {
    let interval = 120;
    let activity_state = state_ending(before(now(), interval + 119), before(now(), interval));
    let activity_period =
        get_just_completed_activity_state(Some(activity_state), secs(interval as u64)).unwrap();
    assert_datetime_eq(
        activity_period.start_time,
        activity_state.end_time.unwrap(),
        Span::from_millis(1).unwrap(),
    );
    assert_datetime_eq(
        activity_period.end_time,
        activity_state.end_time.unwrap().plus(secs(120)),
        Span::from_millis(1).unwrap(),
    );
}

#[test]
fn test_get_just_completed_activity_state_last_activity_state_not_within_5_seconds() {
    let interval = 120;
    let activity_state = state_ending(before(now(), interval + 130), before(now(), interval + 10));
    let activity_period =
        get_just_completed_activity_state(Some(activity_state), secs(interval as u64)).unwrap();
    assert_datetime_eq(
        activity_period.start_time,
        before(now(), interval),
        Span::from_millis(1).unwrap(),
    );
    assert_datetime_eq(activity_period.end_time, now(), Span::from_millis(1).unwrap());
}

#[test]
fn test_datetime_within_tolerance() {
    let base_time = now();
    let slightly_later = Timestamp::from_unix_nanos(base_time.nanos + 500);
    assert_datetime_eq(base_time, slightly_later, Span::from_nanos(1000));
}

#[test]
#[should_panic(expected = "Times differ by more than")]
fn test_datetime_exceeds_tolerance() {
    let base_time = now();
    let much_later = Timestamp::from_unix_nanos(base_time.nanos + 10_000);
    assert_datetime_eq(base_time, much_later, Span::from_nanos(1000));
}

#[test]
fn first_window_is_exactly_one_interval_before_now() {
    let t = Timestamp::from_unix_nanos(1_700_000_000 * SEC + 123);
    let period = just_completed_period(None, t, secs(60));
    assert_eq!(
        period,
        ActivityPeriod {
            start_time: Timestamp::from_unix_nanos(1_699_999_940 * SEC + 123),
            end_time: t,
        }
    );
    assert_eq!(classify_tick(None, t, secs(60)), WindowMode::NoPriorWindow);
}

#[test]
fn late_tick_continues_from_prior_end_exactly() {
    let t = Timestamp::from_unix_nanos(1_000 * SEC);
    // prior ended 60.004 s ago: the tick fired 4 ms late
    let prior_end = Timestamp::from_unix_nanos(940 * SEC - 4_000_000);
    let prior = state_ending(before(prior_end, 60), prior_end);
    assert_eq!(classify_tick(Some(prior), t, secs(60)), WindowMode::Continuing);
    let period = just_completed_period(Some(prior), t, secs(60));
    assert_eq!(period.start_time, prior_end);
    assert_eq!(period.end_time, Timestamp::from_unix_nanos(1_000 * SEC - 4_000_000));
}

#[test]
fn grace_boundary_is_strict() {
    let t = Timestamp::from_unix_nanos(1_000 * SEC);
    // prior.end + 5 s == now - interval: not within grace, a gap
    let on_edge = state_ending(Timestamp::from_unix_nanos(0), Timestamp::from_unix_nanos(935 * SEC));
    assert_eq!(classify_tick(Some(on_edge), t, secs(60)), WindowMode::GapDetected);
    let period = just_completed_period(Some(on_edge), t, secs(60));
    assert_eq!(period.start_time, Timestamp::from_unix_nanos(940 * SEC));
    assert_eq!(period.end_time, t);
    // one nanosecond later it is a continuation
    let inside = state_ending(Timestamp::from_unix_nanos(0), Timestamp::from_unix_nanos(935 * SEC + 1));
    assert_eq!(classify_tick(Some(inside), t, secs(60)), WindowMode::Continuing);
    let period = just_completed_period(Some(inside), t, secs(60));
    assert_eq!(period.start_time, Timestamp::from_unix_nanos(935 * SEC + 1));
    assert_eq!(period.end_time, Timestamp::from_unix_nanos(995 * SEC + 1));
}

#[test]
fn long_gap_snaps_to_now() {
    let t = Timestamp::from_unix_nanos(10_000 * SEC);
    let prior = state_ending(Timestamp::from_unix_nanos(0), Timestamp::from_unix_nanos(60 * SEC));
    let period = just_completed_period(Some(prior), t, secs(60));
    assert_eq!(period.start_time, Timestamp::from_unix_nanos(9_940 * SEC));
    assert_eq!(period.end_time, t);
}

#[test]
fn prior_without_end_time_starts_at_now() {
    let t = Timestamp::from_unix_nanos(500 * SEC);
    let mut prior = state_ending(Timestamp::from_unix_nanos(0), Timestamp::from_unix_nanos(1));
    prior.end_time = None;
    let period = just_completed_period(Some(prior), t, secs(30));
    assert_eq!(period.start_time, t);
    assert_eq!(period.end_time, Timestamp::from_unix_nanos(530 * SEC));
}

#[test]
fn window_outside_the_counter_is_refused() {
    let t = Timestamp::from_unix_nanos(i128::MIN + 5);
    assert_eq!(period_if_representable(None, t, Span::from_nanos(6)), None);
    assert_eq!(
        period_if_representable(None, t, Span::from_nanos(5)),
        Some(ActivityPeriod { start_time: Timestamp::from_unix_nanos(i128::MIN), end_time: t })
    );
    let far = state_ending(Timestamp::from_unix_nanos(0), Timestamp::from_unix_nanos(i128::MAX - 1));
    assert_eq!(
        period_if_representable(Some(far), Timestamp::from_unix_nanos(0), Span::from_nanos(2)),
        None
    );
}

#[test]
fn blank_state_covers_the_last_two_minutes() {
    let t = Timestamp::from_unix_nanos(1_000 * SEC);
    let state = ActivityState::blank_at(t);
    assert_eq!(state.id, None);
    assert_eq!(state.state, ActivityStateType::Inactive);
    assert_eq!(state.app_switches, 0);
    assert_eq!(state.start_time, Some(Timestamp::from_unix_nanos(880 * SEC)));
    assert_eq!(state.end_time, Some(t));
    assert_eq!(state.created_at, Some(t));
}

#[test]
fn spans_and_timestamps() {
    assert_eq!(Span::from_secs(2), Some(Span { nanos: 2_000_000_000 }));
    assert_eq!(Span::from_millis(1), Some(Span { nanos: 1_000_000 }));
    assert_eq!(Span::from_secs(u64::MAX), None);
    assert_eq!(Span::from_secs(18_446_744_073), Some(Span { nanos: 18_446_744_073_000_000_000 }));
    assert_eq!(Span::from_secs(18_446_744_074), None);
    assert_eq!(Span::from_millis(u64::MAX / 1_000_000 + 1), None);
    let t = Timestamp::from_unix_nanos(10);
    assert_eq!(t.plus(Span::from_nanos(5)).nanos, 15);
    assert_eq!(t.minus(Span::from_nanos(15)).nanos, -5);
    assert_eq!(Timestamp::from_unix_nanos(i128::MAX).checked_plus(Span::from_nanos(1)), None);
    assert_eq!(Timestamp::from_unix_nanos(i128::MIN).checked_minus(Span::from_nanos(1)), None);
    assert_eq!(t.checked_plus(Span::from_nanos(1)), Some(Timestamp::from_unix_nanos(11)));
    assert_eq!(t.checked_minus(Span::from_nanos(1)), Some(Timestamp::from_unix_nanos(9)));
    assert!(t.at_least_since(Timestamp::from_unix_nanos(5), Span::from_nanos(5)));
    assert!(!t.at_least_since(Timestamp::from_unix_nanos(5), Span::from_nanos(6)));
    assert!(t.at_least_since(Timestamp::from_unix_nanos(50), Span::from_nanos(0)));
    assert!(!t.at_least_since(Timestamp::from_unix_nanos(50), Span::from_nanos(1)));
    assert!(Timestamp::from_unix_nanos(i128::MAX)
        .at_least_since(Timestamp::from_unix_nanos(i128::MIN), Span::from_nanos(u64::MAX)));
    assert!(!Timestamp::from_unix_nanos(i128::MIN)
        .at_least_since(Timestamp::from_unix_nanos(i128::MAX), Span::from_nanos(1)));
    assert!(t.within(Timestamp::from_unix_nanos(12), Span::from_nanos(2)));
    assert!(!t.within(Timestamp::from_unix_nanos(13), Span::from_nanos(2)));
    assert!(!Timestamp::from_unix_nanos(i128::MAX)
        .within(Timestamp::from_unix_nanos(i128::MIN), Span::from_nanos(u64::MAX)));
}
