use os_monitor_service::clock::{Span, Timestamp};
use os_monitor_service::db::models::activity::{Activity, ActivityType};
use os_monitor_service::db::types::Platform;
use os_monitor_service::services::app_switch_service::AppSwitchState;
use time::OffsetDateTime;
use uuid::Uuid;

const MILLI: i128 = 1_000_000;

fn now() -> Timestamp {
    Timestamp::from_unix_nanos(OffsetDateTime::now_utc().unix_timestamp_nanos())
}

fn window(title: &str, at: Timestamp, app_id: &str) -> Activity {
    Activity::new(
        ActivityType::Window,
        Some(title.to_string()),
        at,
        Platform::Mac,
        Some(app_id.to_string()),
    )
}

fn at(base: Timestamp, millis: i128) -> Timestamp {
    Timestamp::from_unix_nanos(base.nanos + millis * MILLI)
}

#[test]
fn test_app_switch() {
    let start = now();
    let mut app_switch_state = AppSwitchState::started_at(Span::from_millis(1).unwrap(), start);
    let app_1_id = Uuid::new_v4().to_string();
    let app_2_id = Uuid::new_v4().to_string();
    app_switch_state.new_window_activity_at(window("window1", at(start, 0), &app_1_id), at(start, 0));
    app_switch_state.new_window_activity_at(window("window2", at(start, 2), &app_1_id), at(start, 2));
    app_switch_state.new_window_activity_at(window("window3", at(start, 4), &app_1_id), at(start, 4));
    app_switch_state.new_window_activity_at(window("window4", at(start, 6), &app_2_id), at(start, 6));
    app_switch_state.new_window_activity_at(window("window5", at(start, 8), &app_1_id), at(start, 8));
    assert_eq!(app_switch_state.app_switches, 2);
}

#[test]
fn test_spam_app_switch() {
    let mut app_switch_state = AppSwitchState::new(Span::from_millis(1).unwrap());
    for i in 0..5 {
        app_switch_state.new_window_activity(Activity::new(
            ActivityType::Window,
            Some(format!("window{}", i)),
            now(),
            Platform::Mac,
            Some(Uuid::new_v4().to_string()),
        ));
    }
    assert_eq!(app_switch_state.app_switches, 0);
}

#[test]
fn test_app_switch_reset() {
    let start = now();
    let mut app_switch_state = AppSwitchState::started_at(Span::from_millis(1).unwrap(), start);
    app_switch_state.new_window_activity_at(
        window("window1", at(start, 0), &Uuid::new_v4().to_string()),
        at(start, 0),
    );
    app_switch_state.new_window_activity_at(
        window("window2", at(start, 2), &Uuid::new_v4().to_string()),
        at(start, 2),
    );
    assert_eq!(app_switch_state.app_switches, 1);
    app_switch_state.reset_app_switches();
    assert_eq!(app_switch_state.app_switches, 0);
}

#[test]
fn spam_at_one_instant_counts_nothing() {
    let start = Timestamp::from_unix_nanos(1_700_000_000_000_000_000);
    let mut state = AppSwitchState::started_at(Span::from_secs(2).unwrap(), start);
    for i in 0..5 {
        let app = format!("app-{}", i);
        state.new_window_activity_at(window("w", start, &app), at(start, i as i128));
    }
    assert_eq!(state.app_switches, 0);
    assert_eq!(
        state.current_activity.as_ref().unwrap().app_id.as_deref(),
        Some("app-4")
    );
}

#[test]
fn first_sighting_is_adopted_without_counting() {
    let start = Timestamp::from_unix_nanos(0);
    let mut state = AppSwitchState::started_at(Span::from_secs(2).unwrap(), start);
    assert!(state.current_activity.is_none());
    state.new_window_activity_at(window("w", start, "a"), at(start, 10_000));
    assert_eq!(state.app_switches, 0);
    assert_eq!(state.last_switch_time, at(start, 10_000));
    assert_eq!(state.current_activity.as_ref().unwrap().app_id.as_deref(), Some("a"));
}

#[test]
fn back_and_forth_faster_than_dwell_counts_once() {
    // A, A, A, B, A, 900 ms apart with a dwell of one second: B comes
    // 2.7 s after the first A and counts, the last A 0.9 s after B does not.
    let start = Timestamp::from_unix_nanos(5_000_000_000);
    let mut state = AppSwitchState::started_at(Span::from_secs(1).unwrap(), start);
    let ids = ["a", "a", "a", "b", "a"];
    for (i, id) in ids.iter().enumerate() {
        let t = at(start, 900 * i as i128);
        state.new_window_activity_at(window("w", t, id), t);
    }
    assert_eq!(state.app_switches, 1);
    assert_eq!(state.current_activity.as_ref().unwrap().app_id.as_deref(), Some("a"));
}

#[test]
fn switches_spaced_by_dwell_all_count() {
    let start = Timestamp::from_unix_nanos(0);
    let mut state = AppSwitchState::started_at(Span::from_secs(2).unwrap(), start);
    let ids = ["a", "b", "b", "c", "a", "d"];
    for (i, id) in ids.iter().enumerate() {
        let t = at(start, 2_000 * (i as i128 + 1));
        state.new_window_activity_at(window("w", t, id), t);
    }
    // a->b, b->c, c->a, a->d
    assert_eq!(state.app_switches, 4);
}

#[test]
fn switch_exactly_at_dwell_counts_and_just_before_does_not() {
    let start = Timestamp::from_unix_nanos(0);
    let dwell = Span::from_secs(2).unwrap();
    let mut exact = AppSwitchState::started_at(dwell, start);
    exact.new_window_activity_at(window("w", start, "a"), start);
    exact.new_window_activity_at(window("w", start, "b"), Timestamp::from_unix_nanos(2_000_000_000));
    assert_eq!(exact.app_switches, 1);
    assert_eq!(exact.last_switch_time, Timestamp::from_unix_nanos(2_000_000_000));

    let mut early = AppSwitchState::started_at(dwell, start);
    early.new_window_activity_at(window("w", start, "a"), start);
    early.new_window_activity_at(window("w", start, "b"), Timestamp::from_unix_nanos(1_999_999_999));
    assert_eq!(early.app_switches, 0);
    assert_eq!(early.last_switch_time, start);
    assert_eq!(early.current_activity.as_ref().unwrap().app_id.as_deref(), Some("b"));
}

#[test]
fn clock_going_backwards_counts_as_no_time_passed() {
    let start = Timestamp::from_unix_nanos(10_000_000_000);
    let mut state = AppSwitchState::started_at(Span::from_secs(2).unwrap(), start);
    state.new_window_activity_at(window("w", start, "a"), start);
    state.new_window_activity_at(window("w", start, "b"), Timestamp::from_unix_nanos(1));
    assert_eq!(state.app_switches, 0);
}

#[test]
fn reset_keeps_focused_app_and_same_app_is_no_switch() {
    let start = Timestamp::from_unix_nanos(0);
    let mut state = AppSwitchState::started_at(Span::from_secs(2).unwrap(), start);
    state.new_window_activity_at(window("w", start, "a"), start);
    state.new_window_activity_at(window("w", start, "b"), at(start, 3_000));
    assert_eq!(state.app_switches, 1);
    state.reset_app_switches();
    assert_eq!(state.app_switches, 0);
    assert_eq!(state.current_activity.as_ref().unwrap().app_id.as_deref(), Some("b"));
    state.new_window_activity_at(window("w", start, "b"), at(start, 60_000));
    assert_eq!(state.app_switches, 0);
    state.new_window_activity_at(window("w", start, "a"), at(start, 61_000));
    assert_eq!(state.app_switches, 1);
}

#[test]
fn take_app_switches_reads_and_clears() {
    let start = Timestamp::from_unix_nanos(0);
    let mut state = AppSwitchState::started_at(Span::from_millis(1).unwrap(), start);
    state.new_window_activity_at(window("w", start, "a"), start);
    state.new_window_activity_at(window("w", start, "b"), at(start, 5));
    state.new_window_activity_at(window("w", start, "c"), at(start, 10));
    assert_eq!(state.take_app_switches(), 2);
    assert_eq!(state.app_switches, 0);
    assert_eq!(state.take_app_switches(), 0);
}

#[test]
fn zero_dwell_counts_every_change() {
    let start = Timestamp::from_unix_nanos(0);
    let mut state = AppSwitchState::started_at(Span::from_nanos(0), start);
    state.new_window_activity_at(window("w", start, "a"), start);
    state.new_window_activity_at(window("w", start, "b"), start);
    state.new_window_activity_at(window("w", start, "a"), Timestamp::from_unix_nanos(-5));
    assert_eq!(state.app_switches, 2);
}

#[test]
fn burst_within_the_dwell_counts_at_most_once() {
    // the debouncer has been on "a" for a while; then five applications
    // flash by within 400 ms, with a dwell of two seconds
    let start = Timestamp::from_unix_nanos(0);
    let mut state = AppSwitchState::started_at(Span::from_secs(2).unwrap(), start);
    state.new_window_activity_at(window("w", start, "a"), start);
    for (i, id) in ["b", "c", "d", "e", "f"].iter().enumerate() {
        let t = at(start, 10_000 + 100 * i as i128);
        state.new_window_activity_at(window("w", t, id), t);
    }
    assert_eq!(state.app_switches, 1);
    assert_eq!(state.last_switch_time, at(start, 10_000));
}
