use os_monitor_service::clock::{Span, Timestamp};
use os_monitor_service::db::activity_repo::{
    activities_in_window, get_activities_since_last_activity_state, insert_by_time, not_after,
    recorded_since, sort_by_timestamp,
};
use os_monitor_service::db::models::activity::Activity;
use os_monitor_service::db::models::activity_state::{ActivityState, ActivityStateType};
use os_monitor_service::db::types::Platform;
use os_monitor_service::event::WindowEvent;
use os_monitor_service::services::activities_service::create_activity_state_from_activities;
use os_monitor_service::services::activity_state_service::ActivityPeriod;
use os_monitor_service::services::app_switch_service::AppSwitchState;
use time::OffsetDateTime;

const SEC: i128 = 1_000_000_000;

fn now() -> Timestamp {
    Timestamp::from_unix_nanos(OffsetDateTime::now_utc().unix_timestamp_nanos())
}

fn secs(n: u64) -> Span {
    Span::from_secs(n).unwrap()
}

fn test_window() -> Activity {
    Activity::create_window_activity(
        &WindowEvent {
            window_title: "main.rs - app-codeclimbers".to_string(),
            platform: Platform::Mac,
            app_name: "Cursor".to_string(),
            bundle_id: Some("com.ebb.app".to_string()),
            url: Some("https://cursor.com".to_string()),
        },
        None,
    )
}

fn period_from_now() -> ActivityPeriod {
    let start = now();
    ActivityPeriod { start_time: start, end_time: start.plus(secs(120)) }
}

#[test]
fn test_create_idle_activity_state() {
    let mut switches = AppSwitchState::new(secs(2));
    let first_activity_state = create_activity_state_from_activities(&vec![], period_from_now(), &mut switches);
    assert_eq!(first_activity_state.state, ActivityStateType::Inactive);
    assert_eq!(first_activity_state.app_switches, 0);
}

#[test]
fn test_create_active_activity_state() {
    let mut switches = AppSwitchState::new(secs(2));
    switches.app_switches = 5;
    let last_activity_state =
        create_activity_state_from_activities(&vec![test_window()], period_from_now(), &mut switches);
    assert_eq!(last_activity_state.state, ActivityStateType::Active);
    assert_eq!(last_activity_state.app_switches, 5);
}

#[test]
fn test_get_activities_since_last_activity_state_edge_time_case() {
    let now = now();
    let mut stored = vec![];

    // we have an activity at time 2 seconds ago.
    let mut activity = test_window();
    activity.timestamp = Some(now.minus(secs(2)));
    stored.push(activity);

    // we have an activity at time 1 second ago.
    let mut activity = test_window();
    activity.timestamp = Some(now.minus(secs(1)));
    stored.push(activity);

    // we have an activity at time 0 seconds ago.
    let mut activity = test_window();
    activity.timestamp = Some(now);
    stored.push(activity);

    // we have an activity_state that ended 1 second ago.
    let mut activity_state = ActivityState::new().unwrap();
    activity_state.end_time = Some(now.minus(secs(1)));

    let activities = get_activities_since_last_activity_state(&stored, Some(activity_state), now);
    assert_eq!(activities.len(), 1);
    assert_eq!(activities[0].timestamp, Some(now));
}

#[test]
fn test_get_activity_states_for_activity_period() {
    let base_time = Timestamp::from_unix_nanos(36_000 * SEC);

    // activity states at 2-minute intervals
    let times = [0u64, 2, 4, 6, 8, 10, 12, 14];
    let mut states = vec![];
    for minutes in times {
        let mut activity_state = ActivityState::blank_at(base_time);
        activity_state.start_time = Some(base_time.plus(secs(minutes * 60)));
        activity_state.end_time = Some(base_time.plus(secs((minutes + 2) * 60)));
        states.push(activity_state);
    }

    let activity_period = ActivityPeriod {
        start_time: base_time.plus(secs(2 * 60)),
        end_time: base_time.plus(secs(12 * 60)),
    };

    let result: Vec<ActivityState> = states
        .into_iter()
        .filter(|state| activity_period.contains(state.start_time.unwrap()))
        .collect();

    assert_eq!(result.len(), 5);
    for (i, state) in result.iter().enumerate() {
        let expected_start = base_time.plus(secs((i as u64 + 1) * 2 * 60));
        assert!(state.start_time.unwrap().within(expected_start, Span::from_millis(1).unwrap()));
    }
}

#[test]
fn window_takes_what_is_after_the_boundary_and_not_after_now() {
    let at = |s: i128| {
        let mut a = Activity::keyboard_activity_at(Timestamp::from_unix_nanos(s * SEC));
        a.id = Some(s as i64);
        a
    };
    let stored = vec![at(10), at(20), at(30), at(40), at(50)];
    let mut prior = ActivityState::blank_at(Timestamp::from_unix_nanos(20 * SEC));
    let t = Timestamp::from_unix_nanos(40 * SEC);
    let ids = |taken: Vec<Activity>| taken.iter().map(|a| a.id.unwrap()).collect::<Vec<_>>();
    assert_eq!(ids(get_activities_since_last_activity_state(&stored, Some(prior), t)), vec![30, 40]);
    assert_eq!(ids(get_activities_since_last_activity_state(&stored, None, t)), vec![10, 20, 30, 40]);
    prior.end_time = None;
    assert!(get_activities_since_last_activity_state(&stored, Some(prior), t).is_empty());
    let mut undated = at(30);
    undated.timestamp = None;
    assert!(!recorded_since(&undated, None, t));
    assert!(recorded_since(&at(40), None, t));
    assert!(!recorded_since(&at(41), None, t));
    assert!(get_activities_since_last_activity_state(&vec![], None, t).is_empty());
}

#[test]
fn period_contains_its_start_and_not_its_end() {
    let p = ActivityPeriod { start_time: Timestamp::from_unix_nanos(10), end_time: Timestamp::from_unix_nanos(20) };
    assert!(p.contains(Timestamp::from_unix_nanos(10)));
    assert!(p.contains(Timestamp::from_unix_nanos(19)));
    assert!(!p.contains(Timestamp::from_unix_nanos(20)));
    assert!(!p.contains(Timestamp::from_unix_nanos(9)));
}

#[test]
fn taken_activities_come_out_in_order_of_time() {
    let at = |id: i64, s: i128| {
        let mut a = Activity::keyboard_activity_at(Timestamp::from_unix_nanos(s * SEC));
        a.id = Some(id);
        a
    };
    let stored = vec![at(1, 30), at(2, 10), at(3, 50), at(4, 20), at(5, 30), at(6, 25)];
    let prior = ActivityState::blank_at(Timestamp::from_unix_nanos(10 * SEC));
    let t = Timestamp::from_unix_nanos(40 * SEC);
    let ids = |taken: &Vec<Activity>| taken.iter().map(|a| a.id.unwrap()).collect::<Vec<_>>();
    assert_eq!(ids(&activities_in_window(&stored, Some(prior), t)), vec![1, 4, 5, 6]);
    assert_eq!(ids(&get_activities_since_last_activity_state(&stored, Some(prior), t)), vec![4, 6, 1, 5]);
    assert_eq!(ids(&sort_by_timestamp(&stored)), vec![2, 4, 6, 1, 5, 3]);
    let mut undated = at(7, 0);
    undated.timestamp = None;
    let mut sorted = sort_by_timestamp(&stored);
    insert_by_time(&mut sorted, undated.duplicate());
    insert_by_time(&mut sorted, at(8, 60));
    insert_by_time(&mut sorted, at(9, 10));
    assert_eq!(ids(&sorted), vec![7, 2, 9, 4, 6, 1, 5, 3, 8]);
    assert!(not_after(&undated, &at(1, -5)));
    assert!(!not_after(&at(1, -5), &undated));
    assert!(not_after(&undated, &undated));
    assert!(not_after(&at(1, 5), &at(2, 5)));
    assert!(!not_after(&at(1, 6), &at(2, 5)));
    assert!(sort_by_timestamp(&vec![]).is_empty());
}
