//! The switch debouncer: counts genuine application switches and ignores
//! focus flicker.
use vstd::prelude::*;
use crate::clock::{wall_clock_now, Span, Timestamp};
use crate::db::models::activity::Activity;
use crate::utils::text::same_opt_text;

verus! {

/// The focused application and the switches counted since the last reset.
pub struct AppSwitchState {
    pub current_activity: Option<Activity>,
    pub app_switches: i64,
    pub last_switch_time: Timestamp,
    pub min_time_between_switches: Span,
}

/// What the debouncer remembers, as plain values.
pub struct SwitchModel {
    /// Identity of the focused application; `None` until a window event was seen.
    pub focused: Option<Option<Seq<char>>>,
    /// Switches counted since the last reset.
    pub count: int,
    /// When a switch was last counted, or the first identity adopted.
    pub last_switch: int,
    /// Minimum time between two counted switches.
    pub dwell: int,
}

/// A window event as the debouncer sees it: an application identity and
/// the time of arrival.
pub struct Sighting {
    pub app: Option<Seq<char>>,
    pub at: int,
}

/// Whether a switch seen at `now` is far enough from the last counted one.
pub open spec fn dwell_elapsed(m: SwitchModel, now: int) -> bool {
    m.dwell <= 0 || now - m.last_switch >= m.dwell
}

/// The debouncer after a window event for application `app` at `now`.
pub open spec fn observe(m: SwitchModel, app: Option<Seq<char>>, now: int) -> SwitchModel {
    match m.focused {
        None => SwitchModel { focused: Some(app), last_switch: now, ..m },
        Some(current) => if current == app {
            m
        } else if dwell_elapsed(m, now) {
            SwitchModel { focused: Some(app), count: m.count + 1, last_switch: now, ..m }
        } else {
            SwitchModel { focused: Some(app), ..m }
        },
    }
}

/// The debouncer after its count was read out and cleared.
pub open spec fn reset(m: SwitchModel) -> SwitchModel {
    SwitchModel { count: 0, ..m }
}

/// The debouncer after all of `sightings`, in order.
pub open spec fn observe_all(m: SwitchModel, sightings: Seq<Sighting>) -> SwitchModel
    decreases sightings.len(),
{
    if sightings.len() == 0 {
        m
    } else {
        observe_all(observe(m, sightings[0].app, sightings[0].at), sightings.drop_first())
    }
}

/// How many of `sightings` name another application than the one before;
/// `focused` is the application focused before the first.
pub open spec fn identity_changes(focused: Option<Option<Seq<char>>>, sightings: Seq<Sighting>) -> int
    decreases sightings.len(),
{
    if sightings.len() == 0 {
        0
    } else {
        let first = sightings[0].app;
        let changed: int = if focused is Some && focused->0 != first {
            1
        } else {
            0
        };
        changed + identity_changes(Some(first), sightings.drop_first())
    }
}

/// Whether every sighting comes at least `dwell` after the one before, the
/// first at least `dwell` after `last`.
pub open spec fn spaced_by_dwell(last: int, dwell: int, sightings: Seq<Sighting>) -> bool
    decreases sightings.len(),
{
    sightings.len() == 0 || (sightings[0].at - last >= dwell && spaced_by_dwell(
        sightings[0].at,
        dwell,
        sightings.drop_first(),
    ))
}

impl View for AppSwitchState {
    type V = SwitchModel;

    open spec fn view(&self) -> SwitchModel {
        SwitchModel {
            focused: match self.current_activity {
                Some(activity) => Some(activity@.app_id),
                None => None,
            },
            count: self.app_switches as int,
            last_switch: self.last_switch_time.nanos as int,
            dwell: self.min_time_between_switches.nanos as int,
        }
    }
}

impl AppSwitchState {
    /// A debouncer created at `now` that has seen nothing yet.
    pub fn started_at(min_time_between_switches: Span, now: Timestamp) -> (state: AppSwitchState)
        ensures
            state@ == (SwitchModel {
                focused: None,
                count: 0,
                last_switch: now.nanos as int,
                dwell: min_time_between_switches.nanos as int,
            }),
    {
        AppSwitchState {
            current_activity: None,
            app_switches: 0,
            last_switch_time: now,
            min_time_between_switches,
        }
    }

    /// A debouncer that has seen nothing yet. Its last-switch time is
    /// whatever the wall clock showed.
    pub fn new(min_time_between_switches: Span) -> (state: AppSwitchState)
        ensures
            state@ == (SwitchModel {
                focused: None,
                count: 0,
                last_switch: state@.last_switch,
                dwell: min_time_between_switches.nanos as int,
            }),
    {
        let now = wall_clock_now();
        AppSwitchState::started_at(min_time_between_switches, now)
    }

    /// Takes in a window activity seen at `now`: the first one is adopted
    /// without counting, one for the focused application changes nothing,
    /// and one for another application is adopted and counted when the
    /// dwell time has passed since the last counted switch.
    pub fn new_window_activity_at(&mut self, activity: Activity, now: Timestamp)
        requires
            old(self).app_switches < i64::MAX,
        ensures
            final(self)@ == observe(old(self)@, activity@.app_id, now.nanos as int),
            final(self)@.focused != old(self)@.focused ==> final(self).current_activity == Some(activity),
            final(self)@.focused == old(self)@.focused ==> final(self).current_activity == old(self).current_activity,
    {
        let differs = match &self.current_activity {
            Some(current) => Some(!same_opt_text(&current.app_id, &activity.app_id)),
            None => None,
        };
        match differs {
            Some(true) => {
                if now.at_least_since(self.last_switch_time, self.min_time_between_switches) {
                    self.app_switches = self.app_switches + 1;
                    self.last_switch_time = now;
                }
                self.current_activity = Some(activity);
            },
            Some(false) => {},
            None => {
                self.current_activity = Some(activity);
                self.last_switch_time = now;
            },
        }
    }

    /// Takes in a window activity, timed by the wall clock: the outcome is
    /// that of `new_window_activity_at` for some instant.
    pub fn new_window_activity(&mut self, activity: Activity)
        requires
            old(self).app_switches < i64::MAX,
        ensures
            exists|now: int| final(self)@ == #[trigger] observe(old(self)@, activity@.app_id, now),
    {
        let now = wall_clock_now();
        self.new_window_activity_at(activity, now);
    }

    /// Clears the count and keeps the focused application.
    pub fn reset_app_switches(&mut self)
        ensures
            final(self)@ == reset(old(self)@),
            final(self).current_activity == old(self).current_activity,
    {
        self.app_switches = 0;
    }

    /// Reads the count out and clears it in one step.
    pub fn take_app_switches(&mut self) -> (count: i64)
        ensures
            count == old(self).app_switches,
            final(self)@ == reset(old(self)@),
            final(self).current_activity == old(self).current_activity,
    {
        let count: i64 = self.app_switches;
        self.app_switches = 0;
        count
    }
}

/// A window event for the application already in focus changes nothing,
/// also right after a reset: the reset keeps the focused application.
pub proof fn lemma_reset_keeps_identity(m: SwitchModel, app: Option<Seq<char>>, now: int)
    requires
        m.focused == Some(app),
    ensures
        reset(m).count == 0,
        reset(m).focused == m.focused,
        observe(reset(m), app, now) == reset(m),
{
}

/// Observing never lowers the count and raises it by at most one.
pub proof fn lemma_observe_counts_at_most_one(m: SwitchModel, app: Option<Seq<char>>, now: int)
    ensures
        m.count <= observe(m, app, now).count <= m.count + 1,
        observe(m, app, now).focused == Some(app),
        observe(m, app, now).dwell == m.dwell,
{
}

/// For a fresh debouncer and the focus sequence A, A, A, B, A with A and B
/// distinct, at most two switches are counted, whatever the timing. Exactly
/// two are counted when B arrives at least the dwell time after the first
/// A and the last A at least the dwell time after B.
pub proof fn lemma_back_and_forth(
    dwell: int,
    start: int,
    a: Option<Seq<char>>,
    b: Option<Seq<char>>,
    t1: int,
    t2: int,
    t3: int,
    t4: int,
    t5: int,
)
    requires
        a != b,
        dwell >= 0,
    ensures
        ({
            let fresh = SwitchModel { focused: None, count: 0, last_switch: start, dwell };
            let sightings = seq![
                Sighting { app: a, at: t1 },
                Sighting { app: a, at: t2 },
                Sighting { app: a, at: t3 },
                Sighting { app: b, at: t4 },
                Sighting { app: a, at: t5 },
            ];
            let end = observe_all(fresh, sightings);
            &&& 0 <= end.count <= 2
            &&& end.focused == Some(a)
            &&& (t4 - t1 >= dwell && t5 - t4 >= dwell) ==> end.count == 2
            &&& (dwell > 0 && end.count == 2) ==> (t4 - t1 >= dwell && t5 - t4 >= dwell)
        }),
{
    let fresh = SwitchModel { focused: None, count: 0, last_switch: start, dwell };
    let s0 = seq![
        Sighting { app: a, at: t1 },
        Sighting { app: a, at: t2 },
        Sighting { app: a, at: t3 },
        Sighting { app: b, at: t4 },
        Sighting { app: a, at: t5 },
    ];
    let m1 = observe(fresh, a, t1);
    let s1 = s0.drop_first();
    let m2 = observe(m1, a, t2);
    let s2 = s1.drop_first();
    let m3 = observe(m2, a, t3);
    let s3 = s2.drop_first();
    let m4 = observe(m3, b, t4);
    let s4 = s3.drop_first();
    let m5 = observe(m4, a, t5);
    let s5 = s4.drop_first();
    assert(s5.len() == 0);
    assert(observe_all(m5, s5) == m5);
    assert(observe_all(m4, s4) == m5);
    assert(observe_all(m3, s3) == m5);
    assert(observe_all(m2, s2) == m5);
    assert(observe_all(m1, s1) == m5);
    assert(observe_all(fresh, s0) == m5);
}

/// When every sighting comes at least the dwell time after the one before,
/// every change of application is counted: none is suppressed.
pub proof fn lemma_spaced_switches_all_count(m: SwitchModel, sightings: Seq<Sighting>)
    requires
        m.dwell >= 0,
        m.focused is Some ==> spaced_by_dwell(m.last_switch, m.dwell, sightings),
        m.focused is None ==> sightings.len() > 0 ==> spaced_by_dwell(
            sightings[0].at,
            m.dwell,
            sightings.drop_first(),
        ),
    ensures
        observe_all(m, sightings).count == m.count + identity_changes(m.focused, sightings),
    decreases sightings.len(),
{
    if sightings.len() > 0 {
        let first = sightings[0];
        let rest = sightings.drop_first();
        let next = observe(m, first.app, first.at);
        lemma_spaced_after(m, first, rest);
        lemma_spaced_switches_all_count(next, rest);
    }
}

/// After one more sighting the rest is still spaced from the time the
/// debouncer last counted, which is never later than that sighting.
proof fn lemma_spaced_after(m: SwitchModel, first: Sighting, rest: Seq<Sighting>)
    requires
        m.dwell >= 0,
        m.focused is Some ==> first.at - m.last_switch >= m.dwell,
        spaced_by_dwell(first.at, m.dwell, rest),
    ensures
        observe(m, first.app, first.at).last_switch <= first.at,
        spaced_by_dwell(observe(m, first.app, first.at).last_switch, m.dwell, rest),
{
    let next = observe(m, first.app, first.at);
    if rest.len() > 0 {
        assert(rest[0].at - next.last_switch >= m.dwell);
    }
}

/// Whether every sighting arrives between `lo` and `hi`.
pub open spec fn all_within(sightings: Seq<Sighting>, lo: int, hi: int) -> bool {
    forall|i: int| 0 <= i < sightings.len() ==> lo <= (#[trigger] sightings[i]).at <= hi
}

/// A burst of sightings that all arrive within less than the dwell time
/// of each other counts at most once, however many applications it names.
pub proof fn lemma_burst_counts_at_most_once(m: SwitchModel, sightings: Seq<Sighting>, lo: int, hi: int)
    requires
        all_within(sightings, lo, hi),
        hi - lo < m.dwell,
    ensures
        m.count <= observe_all(m, sightings).count <= m.count + 1,
    decreases sightings.len(),
{
    if sightings.len() > 0 {
        let first = sightings[0];
        let rest = sightings.drop_first();
        let next = observe(m, first.app, first.at);
        assert forall|i: int| 0 <= i < rest.len() implies lo <= (#[trigger] rest[i]).at <= hi by {
            assert(rest[i] == sightings[i + 1]);
        }
        if next.last_switch == first.at && next.focused is Some {
            lemma_burst_after_switch(next, rest, lo, hi);
        } else {
            lemma_burst_counts_at_most_once(next, rest, lo, hi);
        }
    }
}

/// Once the debouncer has counted or adopted within the burst, nothing
/// else in the burst counts.
proof fn lemma_burst_after_switch(m: SwitchModel, sightings: Seq<Sighting>, lo: int, hi: int)
    requires
        all_within(sightings, lo, hi),
        hi - lo < m.dwell,
        m.focused is Some,
        lo <= m.last_switch,
    ensures
        observe_all(m, sightings).count == m.count,
    decreases sightings.len(),
{
    if sightings.len() > 0 {
        let first = sightings[0];
        let rest = sightings.drop_first();
        let next = observe(m, first.app, first.at);
        assert forall|i: int| 0 <= i < rest.len() implies lo <= (#[trigger] rest[i]).at <= hi by {
            assert(rest[i] == sightings[i + 1]);
        }
        assert(!dwell_elapsed(m, first.at));
        lemma_burst_after_switch(next, rest, lo, hi);
    }
}

} // verus!
