use os_monitor_service::clock::{Span, Timestamp};
use os_monitor_service::db::db_manager::database_url;
use os_monitor_service::db::models::activity::{Activity, ActivityType};
use os_monitor_service::db::models::activity_state::{ActivityState, ActivityStateType};
use os_monitor_service::db::models::blocked_activity::BlockedActivity;
use os_monitor_service::db::types::Platform;
use os_monitor_service::event::{MouseEvent, WindowEvent};
use os_monitor_service::monitor_callback::MonitoringConfig;
use os_monitor_service::utils::log::{disable_log, enable_log, log, LogSwitch};
use os_monitor_service::utils::text::{
    contains_text, copy_opt_text, copy_text, push_unique_text, same_opt_text, same_text,
};
use time::OffsetDateTime;

fn now() -> Timestamp {
    Timestamp::from_unix_nanos(OffsetDateTime::now_utc().unix_timestamp_nanos())
}

#[test]
fn test_activity_service() {
    let event = WindowEvent {
        window_title: "main.rs - app-codeclimbers".to_string(),
        platform: Platform::Mac,
        app_name: "Cursor".to_string(),
        bundle_id: Some("com.ebb.app".to_string()),
        url: Some("https://cursor.com".to_string()),
    };
    let before = now();
    let activity = Activity::create_window_activity(&event, None);
    assert_eq!(activity.id, None);
    assert_eq!(activity.activity_type, ActivityType::Window);
    assert_eq!(activity.app_window_title, Some("main.rs - app-codeclimbers".to_string()));
    assert_eq!(activity.platform, Platform::Mac);
    assert_eq!(activity.app_id, None);
    assert_eq!(activity.timestamp, activity.created_at);
    assert!(activity.timestamp.unwrap().nanos >= before.nanos);
    assert!(activity.timestamp.unwrap().within(before, Span::from_secs(5).unwrap()));
}

#[test]
fn activities_by_the_wall_clock() {
    let mouse = Activity::create_mouse_activity(&MouseEvent {});
    assert_eq!(mouse.activity_type, ActivityType::Mouse);
    assert_eq!(mouse.app_window_title, None);
    assert_eq!(mouse.platform, Platform::Mac);
    assert_eq!(mouse.app_id, None);
    assert!(mouse.timestamp.unwrap().within(now(), Span::from_secs(5).unwrap()));
    let a = Activity::new(
        ActivityType::Window,
        Some("t".to_string()),
        Timestamp::from_unix_nanos(7),
        Platform::Linux,
        Some("app".to_string()),
    );
    assert_eq!(a.timestamp, Some(Timestamp::from_unix_nanos(7)));
    assert!(a.created_at.unwrap().within(now(), Span::from_secs(5).unwrap()));
    assert_eq!(a.platform, Platform::Linux);
    let copy = a.duplicate();
    assert_eq!(copy.app_id, a.app_id);
    assert_eq!(copy.app_window_title, a.app_window_title);
    assert_eq!(copy.created_at, a.created_at);
}

#[test]
fn test_activity_state_repo() {
    let activity_state = ActivityState::new().unwrap();
    assert_eq!(activity_state.state, ActivityStateType::Inactive);
    assert_eq!(activity_state.app_switches, 0);
    assert_eq!(activity_state.id, None);
    let end = activity_state.end_time.unwrap();
    assert_eq!(activity_state.created_at, Some(end));
    assert_eq!(activity_state.start_time, Some(end.minus(Span::from_secs(120).unwrap())));
    assert!(end.within(now(), Span::from_secs(5).unwrap()));
}

#[test]
fn stored_names_round_trip() {
    for p in [Platform::Mac, Platform::Windows, Platform::Linux, Platform::Ios, Platform::Android] {
        assert_eq!(Platform::parse(p.name()), p);
        assert_eq!(Platform::from(p.name().to_string()), p);
    }
    assert_eq!(Platform::Mac.name(), "MAC");
    assert_eq!(Platform::Windows.name(), "WINDOWS");
    assert_eq!(Platform::Linux.name(), "LINUX");
    assert_eq!(Platform::Ios.name(), "IOS");
    assert_eq!(Platform::Android.name(), "ANDROID");
    assert_eq!(Platform::Unknown.name(), "UNKNOWN");
    assert_eq!(Platform::Web.name(), "WEB");
    assert_eq!(Platform::parse("WEB"), Platform::Unknown);
    assert_eq!(Platform::parse("mac"), Platform::Unknown);
    assert_eq!(Platform::from("".to_string()), Platform::Unknown);
    for k in [ActivityType::Keyboard, ActivityType::Mouse, ActivityType::Window] {
        assert_eq!(ActivityType::parse(k.name()), Some(k));
    }
    assert_eq!(ActivityType::parse("MOUSE"), Some(ActivityType::Mouse));
    assert_eq!(ActivityType::parse("KEYBOARD"), Some(ActivityType::Keyboard));
    assert_eq!(ActivityType::parse("WINDOW"), Some(ActivityType::Window));
    assert_eq!(ActivityType::parse("window"), None);
    assert_eq!(ActivityStateType::parse("ACTIVE"), Some(ActivityStateType::Active));
    assert_eq!(ActivityStateType::parse("INACTIVE"), Some(ActivityStateType::Inactive));
    assert_eq!(ActivityStateType::parse("IDLE"), None);
    assert_eq!(ActivityStateType::Active.name(), "ACTIVE");
    assert_eq!(ActivityStateType::Inactive.name(), "INACTIVE");
}

#[test]
fn test_blocked_activity_repo() {
    let t = now();
    let blocked_activity1 = BlockedActivity::blocked_at("id-1".to_string(), "com.blocked.app1".to_string(), t);
    let blocked_activity2 = BlockedActivity::blocked_at("id-2".to_string(), "com.blocked.app2".to_string(), t);
    let saved_records = vec![blocked_activity1, blocked_activity2];
    assert_eq!(saved_records.len(), 2);
    assert_eq!(saved_records[0].external_app_id, "com.blocked.app1");
    assert_eq!(saved_records[1].external_app_id, "com.blocked.app2");
    assert_eq!(saved_records[0].id, "id-1");
    assert_eq!(saved_records[0].created_at, Some(t));
    assert_eq!(saved_records[0].updated_at, Some(t));
}

#[test]
fn logging_follows_the_switch() {
    let mut switch = LogSwitch::new();
    assert!(!switch.enabled);
    assert_eq!(log(&switch, "hello"), None);
    enable_log(&mut switch);
    assert!(switch.enabled);
    assert_eq!(log(&switch, "hello"), Some("hello".to_string()));
    enable_log(&mut switch);
    assert!(switch.enabled);
    disable_log(&mut switch);
    assert!(!switch.enabled);
    assert_eq!(log(&switch, "hello"), None);
}

#[test]
fn config_defaults_to_one_minute() {
    let config = MonitoringConfig::new("/tmp/db.sqlite".to_string());
    assert_eq!(config.db_path, "/tmp/db.sqlite");
    assert_eq!(config.activity_state_interval, Span::from_secs(60).unwrap());
    let config = config.with_interval(Span::from_millis(100).unwrap());
    assert_eq!(config.db_path, "/tmp/db.sqlite");
    assert_eq!(config.activity_state_interval, Span { nanos: 100_000_000 });
    assert_eq!(database_url("/tmp/db.sqlite"), "sqlite:/tmp/db.sqlite");
    assert_eq!(database_url(":memory:"), "sqlite::memory:");
}

#[test]
fn text_helpers() {
    assert!(same_text("abc", "abc"));
    assert!(!same_text("abc", "abd"));
    assert!(!same_text("abc", "ab"));
    assert!(same_opt_text(&None, &None));
    assert!(!same_opt_text(&Some("a".to_string()), &None));
    assert!(!same_opt_text(&None, &Some("a".to_string())));
    assert!(same_opt_text(&Some("a".to_string()), &Some("a".to_string())));
    assert!(!same_opt_text(&Some("a".to_string()), &Some("b".to_string())));
    assert_eq!(copy_text(&"x y".to_string()), "x y");
    assert_eq!(copy_opt_text(&Some("x".to_string())), Some("x".to_string()));
    assert_eq!(copy_opt_text(&None), None);
    let mut list = vec!["a".to_string()];
    assert!(contains_text(&list, "a"));
    assert!(!contains_text(&list, "b"));
    push_unique_text(&mut list, "a");
    push_unique_text(&mut list, "b");
    push_unique_text(&mut list, "b");
    assert_eq!(list, vec!["a".to_string(), "b".to_string()]);
}
