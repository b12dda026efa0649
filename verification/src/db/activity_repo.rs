//! Which recorded activities a tick takes in.
use vstd::prelude::*;
use crate::clock::Timestamp;
use crate::db::models::activity::{Activity, ActivityView};
use crate::db::models::activity_state::ActivityState;
use crate::services::activity_state_service::prior_end;

verus! {

/// Whether a tick at `now` takes `activity` in: it must have happened
/// strictly after `boundary`, where the previous window ended, and not
/// after `now`. Without a boundary everything up to `now` is taken in.
pub open spec fn in_window(activity: ActivityView, boundary: Option<int>, now: int) -> bool {
    &&& activity.timestamp is Some
    &&& boundary is Some ==> activity.timestamp->0.nanos > boundary->0
    &&& activity.timestamp->0.nanos <= now
}

/// Whether a tick at `now` after `last_state` takes `activity` in.
pub fn recorded_since(activity: &Activity, last_state: Option<ActivityState>, now: Timestamp) -> (taken:
    bool)
    ensures
        taken == in_window(activity@, prior_end(last_state, now), now.nanos as int),
{
    match activity.timestamp {
        None => false,
        Some(t) => {
            let after_boundary = match last_state {
                None => true,
                Some(state) => match state.end_time {
                    Some(end) => t.nanos > end.nanos,
                    None => t.nanos > now.nanos,
                },
            };
            after_boundary && t.nanos <= now.nanos
        },
    }
}

/// The activities among `activities` that a tick at `now` after
/// `last_state` takes in, in the order given.
pub fn activities_in_window(
    activities: &Vec<Activity>,
    last_state: Option<ActivityState>,
    now: Timestamp,
) -> (taken: Vec<Activity>)
    ensures
        taken.deep_view() == activities.deep_view().filter(
            |a: ActivityView| in_window(a, prior_end(last_state, now), now.nanos as int),
        ),
{
    let ghost pred = |a: ActivityView| in_window(a, prior_end(last_state, now), now.nanos as int);
    let mut taken: Vec<Activity> = Vec::new();
    let mut i: usize = 0;
    proof {
        reveal(Seq::filter);
        assert(activities.deep_view().take(0) =~= Seq::<ActivityView>::empty());
        assert(taken.deep_view() =~= Seq::<ActivityView>::empty());
    }
    while i < activities.len()
        invariant
            i <= activities.len(),
            pred == |a: ActivityView| in_window(a, prior_end(last_state, now), now.nanos as int),
            taken.deep_view() == activities.deep_view().take(i as int).filter(pred),
        decreases activities.len() - i,
    {
        let ghost before = taken.deep_view();
        let ghost seen = activities.deep_view().take(i as int);
        let ghost current = activities.deep_view()[i as int];
        if recorded_since(&activities[i], last_state, now) {
            taken.push(activities[i].duplicate());
            proof {
                assert(taken.deep_view() =~= before.push(current));
            }
        }
        proof {
            reveal(Seq::filter);
            let next = activities.deep_view().take(i + 1);
            assert(next.drop_last() =~= seen);
            assert(next.last() == current);
        }
        i = i + 1;
    }
    proof {
        assert(activities.deep_view().take(i as int) =~= activities.deep_view());
    }
    taken
}

/// Where an activity stands in time: its timestamp, with undated
/// activities before all others.
pub open spec fn time_key(activity: ActivityView) -> int {
    match activity.timestamp {
        Some(t) => t.nanos as int,
        None => i128::MIN - 1,
    }
}

/// Whether `activities` are in ascending order of time.
pub open spec fn sorted_by_time(activities: Seq<ActivityView>) -> bool {
    forall|i: int, j: int| 0 <= i < j < activities.len() ==> time_key(activities[i]) <= time_key(activities[j])
}

/// Whether `a` does not come after `b` in time.
pub fn not_after(a: &Activity, b: &Activity) -> (before: bool)
    ensures
        before == (time_key(a@) <= time_key(b@)),
{
    match (a.timestamp, b.timestamp) {
        (None, _) => true,
        (Some(_), None) => false,
        (Some(x), Some(y)) => x.nanos <= y.nanos,
    }
}

/// Puts `activity` into `sorted` behind every activity that does not come
/// after it.
pub fn insert_by_time(sorted: &mut Vec<Activity>, activity: Activity)
    requires
        sorted_by_time(old(sorted).deep_view()),
    ensures
        sorted_by_time(final(sorted).deep_view()),
        final(sorted).deep_view().to_multiset() == old(sorted).deep_view().to_multiset().insert(activity@),
{
    let ghost before = sorted.deep_view();
    let mut at: usize = sorted.len();
    while at > 0 && !not_after(&sorted[at - 1], &activity)
        invariant
            at <= sorted.len(),
            sorted.deep_view() == before,
            forall|k: int| at <= k < before.len() ==> time_key(activity@) < time_key(#[trigger] before[k]),
        decreases at,
    {
        at = at - 1;
    }
    sorted.insert(at, activity);
    proof {
        let after = sorted.deep_view();
        assert(after =~= before.insert(at as int, activity@));
        assert forall|i: int, j: int| 0 <= i < j < after.len() implies time_key(after[i]) <= time_key(
            after[j],
        ) by {
            if i < at && j > at {
                assert(after[i] == before[i] && after[j] == before[j - 1]);
            }
        }
        // Taking the new activity out again leaves what was there before.
        assert(after.remove(at as int) =~= before);
        assert(after[at as int] == activity@);
        after.to_multiset_ensures();
        assert(after.contains(activity@));
        assert(after.to_multiset() =~= before.to_multiset().insert(activity@));
    }
}

/// The given activities in ascending order of time.
pub fn sort_by_timestamp(activities: &Vec<Activity>) -> (sorted: Vec<Activity>)
    ensures
        sorted_by_time(sorted.deep_view()),
        sorted.deep_view().to_multiset() == activities.deep_view().to_multiset(),
{
    let mut sorted: Vec<Activity> = Vec::new();
    let mut i: usize = 0;
    proof {
        assert(activities.deep_view().take(0) =~= sorted.deep_view());
    }
    while i < activities.len()
        invariant
            i <= activities.len(),
            sorted_by_time(sorted.deep_view()),
            sorted.deep_view().to_multiset() == activities.deep_view().take(i as int).to_multiset(),
        decreases activities.len() - i,
    {
        proof {
            let seen = activities.deep_view().take(i as int);
            let current = activities.deep_view()[i as int];
            assert(activities.deep_view().take(i + 1) =~= seen.push(current));
            vstd::seq_lib::to_multiset_build(seen, current);
        }
        insert_by_time(&mut sorted, activities[i].duplicate());
        i = i + 1;
    }
    proof {
        assert(activities.deep_view().take(i as int) =~= activities.deep_view());
    }
    sorted
}

/// The activities among `activities` that a tick at `now` after
/// `last_state` takes in, in ascending order of time.
pub fn get_activities_since_last_activity_state(
    activities: &Vec<Activity>,
    last_state: Option<ActivityState>,
    now: Timestamp,
) -> (taken: Vec<Activity>)
    ensures
        sorted_by_time(taken.deep_view()),
        taken.deep_view().to_multiset() == activities.deep_view().filter(
            |a: ActivityView| in_window(a, prior_end(last_state, now), now.nanos as int),
        ).to_multiset(),
{
    sort_by_timestamp(&activities_in_window(activities, last_state, now))
}

} // verus!
