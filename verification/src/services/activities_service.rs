//! Ingestion of raw events and the scheduler tick that turns recorded
//! activities into one classified activity state.
//!
//! Storage stays with the caller. Each `after_*` function takes the reply
//! to the previous request and names the next one.
use vstd::prelude::*;
use crate::clock::{wall_clock_now, Span, Timestamp};
use crate::db::error::StoreError;
use crate::db::models::activity::{Activity, ActivityType, ActivityView};
use crate::db::models::activity_state::{ActivityState, ActivityStateType};
use crate::db::models::app::{url_host, App};
use crate::db::models::app_tag::AppTag;
use crate::db::models::blocked_activity::{BlockedActivity, BlockedActivityView};
use crate::db::models::tag::{Tag, TagView};
use crate::db::tag_repo::{row_of_tag, ActivityStateTag, TagRow};
use crate::db::types::Platform;
use crate::event::{BlockedAppEvent, KeyboardEvent, MouseEvent, WindowEvent};
use crate::services::activity_state_service::{period_if_representable, spec_period, ActivityPeriod};
use crate::services::app_resolver::{handle_window_event, ResolveStep, ResolveStepView};
use crate::services::app_service::{
    contributes, create_idle_tag, create_tags_from_activities, is_derived, no_window_apps, window_app_ids,
};
use crate::services::app_switch_service::{observe, reset, AppSwitchState};
use crate::utils::ids::{random_id, ID_LEN};
use crate::utils::text::{copy_opt_text, copy_text};

verus! {

/// One event taken off the ingestion queue.
#[derive(Clone, Debug)]
pub enum ActivityEvent {
    Keyboard(KeyboardEvent),
    Mouse(MouseEvent),
    Window(WindowEvent),
    AppBlocked(BlockedAppEvent),
}

/// The event to queue for a keyboard report: one only when keys were used.
pub fn keyboard_report(has_activity: bool) -> (event: Option<ActivityEvent>)
    ensures
        has_activity ==> event == Some(ActivityEvent::Keyboard(KeyboardEvent {  })),
        !has_activity ==> event is None,
{
    if has_activity {
        Some(ActivityEvent::Keyboard(KeyboardEvent {  }))
    } else {
        None
    }
}

/// The event to queue for a mouse report: one only when the mouse was used.
pub fn mouse_report(has_activity: bool) -> (event: Option<ActivityEvent>)
    ensures
        has_activity ==> event == Some(ActivityEvent::Mouse(MouseEvent {  })),
        !has_activity ==> event is None,
{
    if has_activity {
        Some(ActivityEvent::Mouse(MouseEvent {  }))
    } else {
        None
    }
}

/// What the ingestion path does first with an event.
#[derive(Debug)]
pub enum Ingestion {
    /// Store the activity.
    Record { activity: Activity },
    /// Resolve the application of the window event, starting with `step`;
    /// once it is resolved, `handle_window_activity` yields the activity.
    Resolve { event: WindowEvent, step: ResolveStep },
    /// Store the records of the blocked applications.
    RecordBlocked { records: Vec<BlockedActivity> },
}

/// Whether `records` are the records of the blocked applications of
/// `blocked` seen at `now`: one each, in order, under identifiers of the
/// usual length.
pub open spec fn records_of(records: Seq<BlockedActivityView>, blocked: BlockedAppEvent, now: Timestamp) -> bool {
    &&& records.len() == blocked.blocked_apps.len()
    &&& forall|i: int|
        0 <= i < records.len() ==> {
            let record = #[trigger] records[i];
            &&& record.id.len() == ID_LEN
            &&& record.external_app_id == blocked.blocked_apps[i].app_external_id@
            &&& record.created_at == Some(now)
            &&& record.updated_at == Some(now)
        }
}

/// Whether `ingestion` is what the ingestion path does first with
/// `event` seen at `now`.
pub open spec fn is_ingestion_of(ingestion: Ingestion, event: ActivityEvent, now: Timestamp) -> bool {
    match event {
        ActivityEvent::Keyboard(_) => {
            &&& ingestion matches Ingestion::Record { activity }
            &&& activity@ == Activity::spec_recorded(
                ActivityType::Keyboard,
                None,
                now,
                Platform::Mac,
                None,
                now,
            )
        },
        ActivityEvent::Mouse(_) => {
            &&& ingestion matches Ingestion::Record { activity }
            &&& activity@ == Activity::spec_recorded(
                ActivityType::Mouse,
                None,
                now,
                Platform::Mac,
                None,
                now,
            )
        },
        ActivityEvent::Window(window) => {
            &&& ingestion matches Ingestion::Resolve { event: kept, step }
            &&& kept == window
            &&& step@ matches ResolveStepView::FindApp { candidate }
            &&& candidate.id is Some
            &&& candidate.id->0.len() == ID_LEN
            &&& candidate == App::spec_first_seen(
                window@,
                candidate.id->0,
                match window@.url {
                    Some(url) => url_host(url),
                    None => None,
                },
            )
        },
        ActivityEvent::AppBlocked(blocked) => {
            &&& ingestion matches Ingestion::RecordBlocked { records }
            &&& records_of(records.deep_view(), blocked, now)
        },
    }
}

/// Dispatches an event seen at `now` by its kind. Keyboard and mouse
/// events become activities at once; a window event first has its
/// application resolved; a batch of blocked applications becomes one
/// record each.
pub fn ingest_at(event: ActivityEvent, now: Timestamp) -> (ingestion: Ingestion)
    ensures
        is_ingestion_of(ingestion, event, now),
{
    match event {
        ActivityEvent::Keyboard(_) => Ingestion::Record { activity: Activity::keyboard_activity_at(now) },
        ActivityEvent::Mouse(_) => Ingestion::Record { activity: Activity::mouse_activity_at(now) },
        ActivityEvent::Window(window) => {
            let step = handle_window_event(&window);
            Ingestion::Resolve { event: window, step }
        },
        ActivityEvent::AppBlocked(blocked) => Ingestion::RecordBlocked {
            records: handle_app_blocked_activity(&blocked, now),
        },
    }
}

/// The activity to store for `activity`: one without an application
/// inherits the application of the last stored activity, if there is one.
pub fn save_activity(activity: Activity, last_activity: Option<&Activity>) -> (stored: Activity)
    ensures
        stored@ == (ActivityView {
            app_id: if activity@.app_id is None && last_activity is Some {
                last_activity->0@.app_id
            } else {
                activity@.app_id
            },
            ..activity@
        }),
{
    match (&activity.app_id, last_activity) {
        (None, Some(last)) => Activity { app_id: copy_opt_text(&last.app_id), ..activity },
        _ => activity,
    }
}

/// The window activity for an event whose application resolved to
/// `app_id`, seen at `now`. The debouncer takes it in as well.
pub fn handle_window_activity_at(
    event: &WindowEvent,
    app_id: String,
    now: Timestamp,
    switches: &mut AppSwitchState,
) -> (activity: Activity)
    requires
        old(switches).app_switches < i64::MAX,
    ensures
        activity@ == Activity::spec_recorded(
            ActivityType::Window,
            Some(event@.window_title),
            now,
            event@.platform,
            Some(app_id@),
            now,
        ),
        final(switches)@ == observe(old(switches)@, Some(app_id@), now.nanos as int),
{
    let activity = Activity::window_activity_at(event, Some(app_id), now);
    switches.new_window_activity_at(activity.duplicate(), now);
    activity
}

/// The window activity for an event whose application resolved to
/// `app_id`, stamped with the wall clock. The debouncer takes it in as
/// well, at the same instant.
pub fn handle_window_activity(event: &WindowEvent, app_id: String, switches: &mut AppSwitchState) -> (activity:
    Activity)
    requires
        old(switches).app_switches < i64::MAX,
    ensures
        activity.timestamp is Some,
        activity@ == Activity::spec_recorded(
            ActivityType::Window,
            Some(event@.window_title),
            activity.timestamp->0,
            event@.platform,
            Some(app_id@),
            activity.timestamp->0,
        ),
        final(switches)@ == observe(old(switches)@, Some(app_id@), (activity.timestamp->0).nanos as int),
{
    let now = wall_clock_now();
    handle_window_activity_at(event, app_id, now, switches)
}

/// The records for a batch of blocked applications seen at `now`: one per
/// application, in order, each under a freshly drawn identifier.
pub fn handle_app_blocked_activity(event: &BlockedAppEvent, now: Timestamp) -> (records: Vec<
    BlockedActivity,
>)
    ensures
        records_of(records.deep_view(), *event, now),
{
    let mut records: Vec<BlockedActivity> = Vec::new();
    let mut i: usize = 0;
    while i < event.blocked_apps.len()
        invariant
            i <= event.blocked_apps.len(),
            records.len() == i,
            forall|j: int|
                0 <= j < i ==> {
                    let record = #[trigger] records.deep_view()[j];
                    &&& record.id.len() == ID_LEN
                    &&& record.external_app_id == event.blocked_apps[j].app_external_id@
                    &&& record.created_at == Some(now)
                    &&& record.updated_at == Some(now)
                },
        decreases event.blocked_apps.len() - i,
    {
        let ghost before = records.deep_view();
        let record = BlockedActivity::blocked_at(
            random_id(),
            copy_text(&event.blocked_apps[i].app_external_id),
            now,
        );
        let ghost added = record@;
        records.push(record);
        proof {
            assert(records.deep_view() =~= before.push(added));
        }
        i = i + 1;
    }
    records
}

/// The state a tick writes for `period`: inactive with no switches when
/// nothing was recorded, else active with `app_switches` switches.
pub open spec fn planned_state(nothing_recorded: bool, app_switches: i64, period: ActivityPeriod) -> ActivityState {
    ActivityState {
        id: None,
        state: if nothing_recorded {
            ActivityStateType::Inactive
        } else {
            ActivityStateType::Active
        },
        app_switches: if nothing_recorded {
            0
        } else {
            app_switches
        },
        start_time: Some(period.start_time),
        end_time: Some(period.end_time),
        created_at: None,
    }
}

/// Classifies the window `period` from the activities recorded in it. An
/// empty window is inactive and leaves the debouncer alone. Any other is
/// active and carries the debouncer's count, which is read out and cleared
/// in one step.
pub fn create_activity_state_from_activities(
    activities: &Vec<Activity>,
    period: ActivityPeriod,
    switches: &mut AppSwitchState,
) -> (state: ActivityState)
    ensures
        state == planned_state(activities.len() == 0, old(switches).app_switches, period),
        activities.len() == 0 ==> *final(switches) == *old(switches),
        activities.len() > 0 ==> final(switches)@ == reset(old(switches)@),
        activities.len() > 0 ==> final(switches).current_activity == old(switches).current_activity,
{
    if activities.len() == 0 {
        ActivityState {
            id: None,
            state: ActivityStateType::Inactive,
            app_switches: 0,
            start_time: Some(period.start_time),
            end_time: Some(period.end_time),
            created_at: None,
        }
    } else {
        let app_switches: i64 = switches.take_app_switches();
        ActivityState {
            id: None,
            state: ActivityStateType::Active,
            app_switches,
            start_time: Some(period.start_time),
            end_time: Some(period.end_time),
            created_at: None,
        }
    }
}

/// Name of the tag that labels an inactive window.
pub const IDLE_TAG_NAME: &'static str = "idle";

/// Name of the tag that labels a window whose application has no tag.
pub const FALLBACK_TAG_NAME: &'static str = "consuming";

/// Why a tick ended without a labelled activity state.
#[derive(Clone, Copy, Debug, PartialEq, Eq, Structural)]
pub enum TickError {
    /// Storage failed; the tick is abandoned and the next one starts afresh.
    Store(StoreError),
    /// A well-known tag is not seeded: the installation is broken and the
    /// process should stop.
    MissingTag,
    /// The state that was just written came back without an id.
    StateWithoutId,
    /// The window's bounds do not fit the nanosecond counter.
    ClockOutOfRange,
}

/// What the caller has to do next in a tick.
#[derive(Clone, Copy, Debug, PartialEq, Eq, Structural)]
pub enum TickStep {
    /// Load the activities recorded since the last activity state and
    /// call `after_load_activities`.
    LoadActivities,
    /// Load the last activity state and call `after_load_last_state`.
    LoadLastState,
    /// Insert the state and call `after_save_state`.
    SaveState { state: ActivityState },
    /// Load the state just written and call `after_load_saved_state`.
    LoadSavedState { kind: ActivityStateType },
    /// Load the tag named `IDLE_TAG_NAME` and call `after_load_idle_tag`.
    LoadIdleTag { activity_state_id: i64 },
    /// Load the last window activity and call
    /// `after_load_last_window_activity`.
    LoadLastWindowActivity { activity_state_id: i64 },
    /// Load the links of the window's applications, the tags, and the tag
    /// named `FALLBACK_TAG_NAME`, and call `after_load_tag_catalog`.
    LoadTagCatalog { activity_state_id: i64 },
    /// Insert the rows handed out with this step and call `after_save_tags`.
    SaveTags { activity_state_id: i64 },
    /// The tick is complete.
    Done,
    /// The tick failed.
    Failed { error: TickError },
}

/// What tag derivation reads from storage.
#[derive(Debug)]
pub struct TagCatalog {
    /// Links of the applications the window is attributed to.
    pub app_tags: Vec<AppTag>,
    /// The tags those links point to.
    pub tags: Vec<Tag>,
    /// The tag named `FALLBACK_TAG_NAME`, if it is seeded.
    pub fallback: Option<Tag>,
}

/// The step after a storage request that only has to succeed.
pub open spec fn proceed(reply: Result<(), StoreError>, next: TickStep) -> TickStep {
    match reply {
        Ok(_) => next,
        Err(e) => TickStep::Failed { error: TickError::Store(e) },
    }
}

/// The last activity state, read off the reply to its lookup: a missing
/// row means that no state was written yet.
pub open spec fn last_state_of(found: Result<ActivityState, StoreError>) -> Option<ActivityState> {
    match found {
        Ok(state) => Some(state),
        Err(_) => None,
    }
}

/// The step after the last state was looked up at `now`: the window is
/// computed and classified. A lookup that failed for another reason than
/// a missing row fails the tick, and so does a window that does not fit
/// the counter.
pub open spec fn spec_after_load_last_state(
    found: Result<ActivityState, StoreError>,
    nothing_recorded: bool,
    app_switches: i64,
    now: Timestamp,
    interval: Span,
) -> TickStep {
    match found {
        Err(StoreError::UniqueViolation) => TickStep::Failed {
            error: TickError::Store(StoreError::UniqueViolation),
        },
        Err(StoreError::Failure) => TickStep::Failed { error: TickError::Store(StoreError::Failure) },
        _ => match spec_period(last_state_of(found), now, interval) {
            Some(period) => TickStep::SaveState {
                state: planned_state(nothing_recorded, app_switches, period),
            },
            None => TickStep::Failed { error: TickError::ClockOutOfRange },
        },
    }
}

/// Whether `step` is the step after the last state was looked up at `now`,
/// with `recorded` activities in the window.
pub open spec fn is_step_at(
    step: TickStep,
    found: Result<ActivityState, StoreError>,
    recorded: int,
    app_switches: i64,
    now: Timestamp,
    interval: Span,
) -> bool {
    step == spec_after_load_last_state(found, recorded == 0, app_switches, now, interval)
}

/// The step after the written state was read back: an inactive window
/// gets the idle tag; an active one gets the tags of its applications,
/// for which the last window activity is needed when the window itself
/// names no application.
pub open spec fn spec_after_load_saved_state(
    kind: ActivityStateType,
    found: Result<ActivityState, StoreError>,
    names_no_app: bool,
) -> TickStep {
    match found {
        Err(e) => TickStep::Failed { error: TickError::Store(e) },
        Ok(state) => match state.id {
            None => TickStep::Failed { error: TickError::StateWithoutId },
            Some(id) => match kind {
                ActivityStateType::Inactive => TickStep::LoadIdleTag { activity_state_id: id },
                ActivityStateType::Active => if names_no_app {
                    TickStep::LoadLastWindowActivity { activity_state_id: id }
                } else {
                    TickStep::LoadTagCatalog { activity_state_id: id }
                },
            },
        },
    }
}

/// The step after a well-known tag was looked up: a tag that is missing
/// or has no id is a broken installation.
pub open spec fn spec_after_load_tag(activity_state_id: i64, found: Result<TagView, StoreError>) -> TickStep {
    match found {
        Ok(tag) => if tag.id is Some {
            TickStep::SaveTags { activity_state_id }
        } else {
            TickStep::Failed { error: TickError::MissingTag }
        },
        Err(StoreError::NotFound) => TickStep::Failed { error: TickError::MissingTag },
        Err(e) => TickStep::Failed { error: TickError::Store(e) },
    }
}

/// The first step of a tick.
pub fn begin_tick() -> (step: TickStep)
    ensures
        step == TickStep::LoadActivities,
{
    TickStep::LoadActivities
}

/// The step after the activities were loaded.
pub fn after_load_activities(loaded: Result<(), StoreError>) -> (step: TickStep)
    ensures
        step == proceed(loaded, TickStep::LoadLastState),
{
    match loaded {
        Ok(_) => TickStep::LoadLastState,
        Err(e) => TickStep::Failed { error: TickError::Store(e) },
    }
}

/// The step after the last state was looked up, for a tick at `now`. The
/// debouncer's count is read out and cleared only when an active state
/// is handed out for writing.
pub fn after_load_last_state_at(
    found: Result<ActivityState, StoreError>,
    activities: &Vec<Activity>,
    now: Timestamp,
    interval: Span,
    switches: &mut AppSwitchState,
) -> (step: TickStep)
    ensures
        step == spec_after_load_last_state(
            found,
            activities.len() == 0,
            old(switches).app_switches,
            now,
            interval,
        ),
        (step is SaveState && activities.len() > 0) ==> final(switches)@ == reset(old(switches)@),
        (step is SaveState && activities.len() > 0) ==> final(switches).current_activity == old(switches).current_activity,
        !(step is SaveState && activities.len() > 0) ==> *final(switches) == *old(switches),
{
    let last_state = match found {
        Ok(state) => Some(state),
        Err(StoreError::NotFound) => None,
        Err(e) => {
            return TickStep::Failed { error: TickError::Store(e) };
        },
    };
    match period_if_representable(last_state, now, interval) {
        Some(period) => TickStep::SaveState {
            state: create_activity_state_from_activities(activities, period, switches),
        },
        None => TickStep::Failed { error: TickError::ClockOutOfRange },
    }
}

/// The step after the last state was looked up, for a tick at the instant
/// the wall clock shows: the outcome is that of `after_load_last_state_at`
/// for some instant.
pub fn after_load_last_state(
    found: Result<ActivityState, StoreError>,
    activities: &Vec<Activity>,
    interval: Span,
    switches: &mut AppSwitchState,
) -> (step: TickStep)
    ensures
        exists|now: Timestamp| #[trigger]
            is_step_at(step, found, activities.len() as int, old(switches).app_switches, now, interval),
        (step is SaveState && activities.len() > 0) ==> final(switches)@ == reset(old(switches)@),
        !(step is SaveState && activities.len() > 0) ==> *final(switches) == *old(switches),
{
    let now = wall_clock_now();
    let ghost count = switches.app_switches;
    let step = after_load_last_state_at(found, activities, now, interval, switches);
    assert(is_step_at(step, found, activities.len() as int, count, now, interval));
    step
}

/// The step after the state was inserted.
pub fn after_save_state(state: &ActivityState, saved: Result<(), StoreError>) -> (step: TickStep)
    ensures
        step == proceed(saved, TickStep::LoadSavedState { kind: state.state }),
{
    match saved {
        Ok(_) => TickStep::LoadSavedState { kind: state.state },
        Err(e) => TickStep::Failed { error: TickError::Store(e) },
    }
}

/// The step after the written state was read back.
pub fn after_load_saved_state(
    kind: ActivityStateType,
    found: Result<ActivityState, StoreError>,
    activities: &Vec<Activity>,
) -> (step: TickStep)
    ensures
        step == spec_after_load_saved_state(kind, found, no_window_apps(activities.deep_view())),
{
    match found {
        Err(e) => TickStep::Failed { error: TickError::Store(e) },
        Ok(state) => match state.id {
            None => TickStep::Failed { error: TickError::StateWithoutId },
            Some(id) => match kind {
                ActivityStateType::Inactive => TickStep::LoadIdleTag { activity_state_id: id },
                ActivityStateType::Active => {
                    let app_ids = window_app_ids(activities);
                    proof {
                        let found_ids = app_ids.deep_view();
                        if found_ids.len() > 0 {
                            assert(found_ids.contains(found_ids[0]));
                        } else {
                            assert forall|app: Seq<char>| !found_ids.contains(app) by {
                                if found_ids.contains(app) {
                                    let j = choose|j: int| 0 <= j < found_ids.len() && found_ids[j] == app;
                                }
                            }
                        }
                    }
                    if app_ids.len() == 0 {
                        TickStep::LoadLastWindowActivity { activity_state_id: id }
                    } else {
                        TickStep::LoadTagCatalog { activity_state_id: id }
                    }
                },
            },
        },
    }
}

/// The step after the idle tag was looked up, and the rows to insert:
/// the idle tag alone.
pub fn after_load_idle_tag(activity_state_id: i64, found: Result<Tag, StoreError>) -> (planned: (
    TickStep,
    Vec<ActivityStateTag>,
))
    ensures
        planned.0 == spec_after_load_tag(
            activity_state_id,
            match found {
                Ok(tag) => Ok(tag@),
                Err(e) => Err(e),
            },
        ),
        planned.0 is SaveTags ==> planned.1.deep_view() == seq![
            row_of_tag(activity_state_id, found->Ok_0@.id->0),
        ],
        !(planned.0 is SaveTags) ==> planned.1.len() == 0,
{
    match found {
        Ok(tag) => {
            if tag.id.is_some() {
                (TickStep::SaveTags { activity_state_id }, create_idle_tag(activity_state_id, &tag))
            } else {
                (TickStep::Failed { error: TickError::MissingTag }, Vec::new())
            }
        },
        Err(StoreError::NotFound) => (TickStep::Failed { error: TickError::MissingTag }, Vec::new()),
        Err(e) => (TickStep::Failed { error: TickError::Store(e) }, Vec::new()),
    }
}

/// The step after the last window activity was looked up, and that
/// activity if there is one: a missing row is no failure, the window then
/// has no application.
pub fn after_load_last_window_activity(activity_state_id: i64, found: Result<Activity, StoreError>) -> (planned:
    (TickStep, Option<Activity>))
    ensures
        planned.0 == match found {
            Ok(_) => TickStep::LoadTagCatalog { activity_state_id },
            Err(StoreError::NotFound) => TickStep::LoadTagCatalog { activity_state_id },
            Err(e) => TickStep::Failed { error: TickError::Store(e) },
        },
        planned.1 == match found {
            Ok(activity) => Some(activity),
            Err(_) => None,
        },
{
    match found {
        Ok(activity) => (TickStep::LoadTagCatalog { activity_state_id }, Some(activity)),
        Err(StoreError::NotFound) => (TickStep::LoadTagCatalog { activity_state_id }, None),
        Err(e) => (TickStep::Failed { error: TickError::Store(e) }, None),
    }
}

/// The step after the links and tags were loaded, and the rows to insert:
/// those that label the window (see `create_tags_from_activities`), with
/// the seeded fallback tag.
pub fn after_load_tag_catalog(
    activity_state_id: i64,
    activities: &Vec<Activity>,
    last_window_activity: Option<&Activity>,
    loaded: Result<TagCatalog, StoreError>,
) -> (planned: (TickStep, Vec<ActivityStateTag>))
    ensures
        planned.0 == match loaded {
            Err(e) => TickStep::Failed { error: TickError::Store(e) },
            Ok(catalog) => if catalog.fallback is Some && catalog.fallback->0@.id is Some {
                TickStep::SaveTags { activity_state_id }
            } else {
                TickStep::Failed { error: TickError::MissingTag }
            },
        },
        !(planned.0 is SaveTags) ==> planned.1.len() == 0,
        planned.0 is SaveTags ==> {
            &&& planned.1.deep_view().no_duplicates()
            &&& planned.1.len() >= 1
            &&& exists|apps: Seq<Seq<char>>|
                {
                    &&& apps.no_duplicates()
                    &&& forall|id: Seq<char>|
                        apps.contains(id) <==> contributes(
                            activities.deep_view(),
                            match last_window_activity {
                                Some(a) => Some(a@),
                                None => None,
                            },
                            id,
                        )
                    &&& forall|r: TagRow|
                        planned.1.deep_view().contains(r) <==> #[trigger] is_derived(
                            r,
                            activity_state_id,
                            apps,
                            loaded->Ok_0.app_tags.deep_view(),
                            loaded->Ok_0.tags.deep_view(),
                            loaded->Ok_0.fallback->0@.id->0,
                        )
                }
        },
{
    match loaded {
        Err(e) => (TickStep::Failed { error: TickError::Store(e) }, Vec::new()),
        Ok(catalog) => match &catalog.fallback {
            Some(fallback) => match &fallback.id {
                Some(fallback_id) => {
                    let rows = create_tags_from_activities(
                        activities,
                        last_window_activity,
                        &catalog.app_tags,
                        &catalog.tags,
                        fallback_id.as_str(),
                        activity_state_id,
                    );
                    (TickStep::SaveTags { activity_state_id }, rows)
                },
                None => (TickStep::Failed { error: TickError::MissingTag }, Vec::new()),
            },
            None => (TickStep::Failed { error: TickError::MissingTag }, Vec::new()),
        },
    }
}

/// The step after the rows were inserted: the tick is complete, or it
/// failed with the rows.
pub fn after_save_tags(saved: Result<(), StoreError>) -> (step: TickStep)
    ensures
        step == proceed(saved, TickStep::Done),
{
    match saved {
        Ok(_) => TickStep::Done,
        Err(e) => TickStep::Failed { error: TickError::Store(e) },
    }
}

/// A window in which nothing was recorded is written as inactive with no
/// switches, whatever the debouncer counted, and its label is the idle
/// tag alone.
pub proof fn lemma_empty_window_is_idle(
    app_switches: i64,
    period: ActivityPeriod,
    activity_state_id: i64,
    idle_tag: TagView,
    names_no_app: bool,
)
    requires
        idle_tag.id is Some,
    ensures
        planned_state(true, app_switches, period).state == ActivityStateType::Inactive,
        planned_state(true, app_switches, period).app_switches == 0,
        spec_after_load_saved_state(
            planned_state(true, app_switches, period).state,
            Ok(ActivityState { id: Some(activity_state_id), ..planned_state(true, app_switches, period) }),
            names_no_app,
        ) == (TickStep::LoadIdleTag { activity_state_id }),
        spec_after_load_tag(activity_state_id, Ok(idle_tag)) == (TickStep::SaveTags { activity_state_id }),
{
}

/// A failed storage request ends the tick at once, at any point: nothing
/// is swallowed.
pub proof fn lemma_storage_failure_fails_the_tick(
    error: StoreError,
    next: TickStep,
    kind: ActivityStateType,
    names_no_app: bool,
    activity_state_id: i64,
)
    requires
        error == StoreError::Failure,
    ensures
        proceed(Err(error), next) == (TickStep::Failed { error: TickError::Store(error) }),
        spec_after_load_saved_state(kind, Err(error), names_no_app) == (TickStep::Failed {
            error: TickError::Store(error),
        }),
        spec_after_load_tag(activity_state_id, Err(error)) == (TickStep::Failed {
            error: TickError::Store(error),
        }),
{
}

} // verus!
