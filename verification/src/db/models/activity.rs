//! Activities: one immutable record per raw event.
use vstd::prelude::*;
use crate::clock::{wall_clock_now, Timestamp};
use crate::db::types::Platform;
use crate::event::{KeyboardEvent, MouseEvent, WindowEvent};
use crate::utils::text::{copy_opt_text, copy_text, same_text};

verus! {

/// What kind of raw event an activity records.
#[derive(Clone, Copy, Debug, PartialEq, Eq, Structural)]
pub enum ActivityType {
    Keyboard,
    Mouse,
    Window,
}

impl ActivityType {
    /// The kind a stored name stands for, if it names one.
    pub open spec fn spec_parse(name: Seq<char>) -> Option<ActivityType> {
        if name == "MOUSE"@ {
            Some(ActivityType::Mouse)
        } else if name == "KEYBOARD"@ {
            Some(ActivityType::Keyboard)
        } else if name == "WINDOW"@ {
            Some(ActivityType::Window)
        } else {
            None
        }
    }

    /// The upper-case name under which the kind is stored.
    pub open spec fn spec_name(self) -> Seq<char> {
        match self {
            ActivityType::Keyboard => "KEYBOARD"@,
            ActivityType::Mouse => "MOUSE"@,
            ActivityType::Window => "WINDOW"@,
        }
    }

    /// Reads a stored kind; `None` for a name that is not one of the three.
    pub fn parse(name: &str) -> (kind: Option<ActivityType>)
        ensures
            kind == ActivityType::spec_parse(name@),
    {
        if same_text(name, "MOUSE") {
            Some(ActivityType::Mouse)
        } else if same_text(name, "KEYBOARD") {
            Some(ActivityType::Keyboard)
        } else if same_text(name, "WINDOW") {
            Some(ActivityType::Window)
        } else {
            None
        }
    }

    /// The name under which the kind is stored.
    pub fn name(&self) -> (name: &'static str)
        ensures
            name@ == self.spec_name(),
    {
        match self {
            ActivityType::Keyboard => "KEYBOARD",
            ActivityType::Mouse => "MOUSE",
            ActivityType::Window => "WINDOW",
        }
    }
}

/// One raw event as it is stored.
#[derive(Clone, Debug)]
pub struct Activity {
    pub id: Option<i64>,
    pub created_at: Option<Timestamp>,
    pub timestamp: Option<Timestamp>,
    pub activity_type: ActivityType,
    pub app_window_title: Option<String>,
    pub platform: Platform,
    pub app_id: Option<String>,
}

/// An activity with its text read as character sequences.
pub struct ActivityView {
    pub id: Option<i64>,
    pub created_at: Option<Timestamp>,
    pub timestamp: Option<Timestamp>,
    pub activity_type: ActivityType,
    pub app_window_title: Option<Seq<char>>,
    pub platform: Platform,
    pub app_id: Option<Seq<char>>,
}

impl DeepView for Activity {
    type V = ActivityView;

    open spec fn deep_view(&self) -> ActivityView {
        self@
    }
}

impl View for Activity {
    type V = ActivityView;

    open spec fn view(&self) -> ActivityView {
        ActivityView {
            id: self.id,
            created_at: self.created_at,
            timestamp: self.timestamp,
            activity_type: self.activity_type,
            app_window_title: self.app_window_title.deep_view(),
            platform: self.platform,
            app_id: self.app_id.deep_view(),
        }
    }
}

impl Activity {
    /// The unsaved activity of the given kind that happened at `timestamp`
    /// and was recorded at `created_at`.
    pub open spec fn spec_recorded(
        activity_type: ActivityType,
        app_window_title: Option<Seq<char>>,
        timestamp: Timestamp,
        platform: Platform,
        app_id: Option<Seq<char>>,
        created_at: Timestamp,
    ) -> ActivityView {
        ActivityView {
            id: None,
            created_at: Some(created_at),
            timestamp: Some(timestamp),
            activity_type,
            app_window_title,
            platform,
            app_id,
        }
    }

    /// An unsaved activity recorded at `created_at`.
    pub fn recorded_at(
        activity_type: ActivityType,
        app_window_title: Option<String>,
        timestamp: Timestamp,
        platform: Platform,
        app_id: Option<String>,
        created_at: Timestamp,
    ) -> (activity: Activity)
        ensures
            activity@ == Activity::spec_recorded(
                activity_type,
                app_window_title.deep_view(),
                timestamp,
                platform,
                app_id.deep_view(),
                created_at,
            ),
    {
        Activity {
            id: None,
            created_at: Some(created_at),
            timestamp: Some(timestamp),
            activity_type,
            app_window_title,
            platform,
            app_id,
        }
    }

    /// An unsaved activity recorded now: everything is as given, and the
    /// creation time is whatever the wall clock showed.
    pub fn new(
        activity_type: ActivityType,
        app_window_title: Option<String>,
        timestamp: Timestamp,
        platform: Platform,
        app_id: Option<String>,
    ) -> (activity: Activity)
        ensures
            activity.created_at is Some,
            activity@ == Activity::spec_recorded(
                activity_type,
                app_window_title.deep_view(),
                timestamp,
                platform,
                app_id.deep_view(),
                activity.created_at->0,
            ),
    {
        let now = wall_clock_now();
        Activity::recorded_at(activity_type, app_window_title, timestamp, platform, app_id, now)
    }

    /// The window activity for `event` seen at `now` in application `app_id`.
    pub fn window_activity_at(event: &WindowEvent, app_id: Option<String>, now: Timestamp) -> (activity:
        Activity)
        ensures
            activity@ == Activity::spec_recorded(
                ActivityType::Window,
                Some(event.window_title@),
                now,
                event.platform,
                app_id.deep_view(),
                now,
            ),
    {
        Activity::recorded_at(
            ActivityType::Window,
            Some(copy_text(&event.window_title)),
            now,
            event.platform,
            app_id,
            now,
        )
    }

    /// The mouse activity seen at `now`.
    pub fn mouse_activity_at(now: Timestamp) -> (activity: Activity)
        ensures
            activity@ == Activity::spec_recorded(ActivityType::Mouse, None, now, Platform::Mac, None, now),
    {
        Activity::recorded_at(ActivityType::Mouse, None, now, Platform::Mac, None, now)
    }

    /// The keyboard activity seen at `now`.
    pub fn keyboard_activity_at(now: Timestamp) -> (activity: Activity)
        ensures
            activity@ == Activity::spec_recorded(ActivityType::Keyboard, None, now, Platform::Mac, None, now),
    {
        Activity::recorded_at(ActivityType::Keyboard, None, now, Platform::Mac, None, now)
    }

    /// The window activity for `event`, stamped with the wall clock.
    pub fn create_window_activity(event: &WindowEvent, app_id: Option<String>) -> (activity: Activity)
        ensures
            activity.timestamp is Some,
            activity@ == Activity::spec_recorded(
                ActivityType::Window,
                Some(event.window_title@),
                activity.timestamp->0,
                event.platform,
                app_id.deep_view(),
                activity.timestamp->0,
            ),
    {
        let now = wall_clock_now();
        Activity::window_activity_at(event, app_id, now)
    }

    /// The mouse activity for an event, stamped with the wall clock.
    pub fn create_mouse_activity(_event: &MouseEvent) -> (activity: Activity)
        ensures
            activity.timestamp is Some,
            activity@ == Activity::spec_recorded(
                ActivityType::Mouse,
                None,
                activity.timestamp->0,
                Platform::Mac,
                None,
                activity.timestamp->0,
            ),
    {
        let now = wall_clock_now();
        Activity::mouse_activity_at(now)
    }

    /// The keyboard activity for an event, stamped with the wall clock.
    pub fn create_keyboard_activity(_event: &KeyboardEvent) -> (activity: Activity)
        ensures
            activity.timestamp is Some,
            activity@ == Activity::spec_recorded(
                ActivityType::Keyboard,
                None,
                activity.timestamp->0,
                Platform::Mac,
                None,
                activity.timestamp->0,
            ),
    {
        let now = wall_clock_now();
        Activity::keyboard_activity_at(now)
    }

    /// A copy with the same contents.
    pub fn duplicate(&self) -> (copy: Activity)
        ensures
            copy@ == self@,
    {
        Activity {
            id: self.id,
            created_at: self.created_at,
            timestamp: self.timestamp,
            activity_type: self.activity_type,
            app_window_title: copy_opt_text(&self.app_window_title),
            platform: self.platform,
            app_id: copy_opt_text(&self.app_id),
        }
    }
}

} // verus!
