//! The period scheduler's boundary rule: where the next window starts and ends.
use vstd::prelude::*;
use crate::clock::{wall_clock_now, Span, Timestamp};
use crate::db::models::activity_state::ActivityState;

verus! {

/// Tolerance within which a tick that fires late still continues the
/// previous window, in nanoseconds.
pub const GRACE_NANOS: u64 = 5_000_000_000;

/// The half-open window `[start_time, end_time)` a tick classifies.
#[derive(Clone, Copy, Debug, PartialEq, Eq, Structural)]
pub struct ActivityPeriod {
    pub start_time: Timestamp,
    pub end_time: Timestamp,
}

impl ActivityPeriod {
    /// Whether `t` lies in the half-open window: at or after its start
    /// and before its end.
    pub fn contains(&self, t: Timestamp) -> (inside: bool)
        ensures
            inside == (self.start_time.nanos <= t.nanos < self.end_time.nanos),
    {
        self.start_time.nanos <= t.nanos && t.nanos < self.end_time.nanos
    }
}

/// How a tick relates to the window before it.
#[derive(Clone, Copy, Debug, PartialEq, Eq, Structural)]
pub enum WindowMode {
    /// No activity state was written yet.
    NoPriorWindow,
    /// The previous window ended recently: the new one starts where it ended.
    Continuing,
    /// The previous window ended long ago: the new one is anchored on now.
    GapDetected,
}

/// Where the previous window ended, as the rule sees it: nothing without a
/// previous state, and `now` for a previous state without an end time.
pub open spec fn prior_end(last_state: Option<ActivityState>, now: Timestamp) -> Option<int> {
    match last_state {
        None => None,
        Some(state) => match state.end_time {
            Some(end) => Some(end.nanos as int),
            None => Some(now.nanos as int),
        },
    }
}

/// The mode of a tick at `now` for windows of length `interval`.
pub open spec fn window_mode(prior: Option<int>, now: int, interval: int) -> WindowMode {
    match prior {
        None => WindowMode::NoPriorWindow,
        Some(end) => if end + GRACE_NANOS > now - interval {
            WindowMode::Continuing
        } else {
            WindowMode::GapDetected
        },
    }
}

/// Start of the window of a tick at `now`.
pub open spec fn window_start(prior: Option<int>, now: int, interval: int) -> int {
    match window_mode(prior, now, interval) {
        WindowMode::Continuing => prior->0,
        _ => now - interval,
    }
}

/// End of the window of a tick at `now`: one interval after its start.
pub open spec fn window_end(prior: Option<int>, now: int, interval: int) -> int {
    window_start(prior, now, interval) + interval
}

/// Whether both bounds of the window fit the nanosecond counter.
pub open spec fn window_fits(prior: Option<int>, now: int, interval: int) -> bool {
    &&& i128::MIN <= window_start(prior, now, interval)
    &&& window_end(prior, now, interval) <= i128::MAX
}

/// The window of a tick at `now` after `last_state`, or `None` when its
/// bounds do not fit the nanosecond counter.
pub open spec fn spec_period(last_state: Option<ActivityState>, now: Timestamp, interval: Span) -> Option<
    ActivityPeriod,
> {
    let prior = prior_end(last_state, now);
    if now.can_sub(interval) && window_fits(prior, now.nanos as int, interval.nanos as int) {
        Some(
            ActivityPeriod {
                start_time: Timestamp {
                    nanos: window_start(prior, now.nanos as int, interval.nanos as int) as i128,
                },
                end_time: Timestamp {
                    nanos: window_end(prior, now.nanos as int, interval.nanos as int) as i128,
                },
            },
        )
    } else {
        None
    }
}

/// The mode of a tick at `now` after `last_state`.
pub fn classify_tick(last_state: Option<ActivityState>, now: Timestamp, interval: Span) -> (mode:
    WindowMode)
    ensures
        mode == window_mode(prior_end(last_state, now), now.nanos as int, interval.nanos as int),
{
    match last_state {
        None => WindowMode::NoPriorWindow,
        Some(state) => {
            let end = match state.end_time {
                Some(end) => end,
                None => now,
            };
            // Where a sum or difference leaves the counter, the comparison
            // is decided already: the prior end is the later of the two.
            let recent = match (end.checked_plus(Span { nanos: GRACE_NANOS }), now.checked_minus(interval)) {
                (Some(limit), Some(boundary)) => limit.nanos > boundary.nanos,
                _ => true,
            };
            if recent {
                WindowMode::Continuing
            } else {
                WindowMode::GapDetected
            }
        },
    }
}

/// The window a tick at `now` classifies. Without a previous state, or
/// when the previous window ended more than the grace time before
/// `now - interval`, it is `[now - interval, now)`; otherwise it starts
/// where the previous window ended and lasts one interval.
pub fn just_completed_period(last_state: Option<ActivityState>, now: Timestamp, interval: Span) -> (period:
    ActivityPeriod)
    requires
        now.can_sub(interval),
        window_fits(
            prior_end(last_state, now),
            now.nanos as int,
            interval.nanos as int,
        ),
    ensures
        ({
            let prior = prior_end(last_state, now);
            &&& period.start_time.nanos == window_start(prior, now.nanos as int, interval.nanos as int)
            &&& period.end_time.nanos == window_end(prior, now.nanos as int, interval.nanos as int)
        }),
{
    let start = match classify_tick(last_state, now, interval) {
        WindowMode::Continuing => match last_state {
            Some(state) => match state.end_time {
                Some(end) => end,
                None => now,
            },
            None => now,
        },
        _ => now.minus(interval),
    };
    ActivityPeriod { start_time: start, end_time: start.plus(interval) }
}

/// The window of a tick at the instant the wall clock shows, or `None`
/// when its bounds do not fit the nanosecond counter: the outcome is that
/// of `period_if_representable` for some instant.
pub fn get_just_completed_activity_state(last_state: Option<ActivityState>, interval: Span) -> (period:
    Option<ActivityPeriod>)
    ensures
        exists|now: Timestamp| period == #[trigger] spec_period(last_state, now, interval),
{
    let now = wall_clock_now();
    let period = period_if_representable(last_state, now, interval);
    assert(period == spec_period(last_state, now, interval));
    period
}

/// The window of a tick at `now`, or `None` when its bounds do not fit the
/// nanosecond counter.
pub fn period_if_representable(last_state: Option<ActivityState>, now: Timestamp, interval: Span) -> (period:
    Option<ActivityPeriod>)
    ensures
        period == spec_period(last_state, now, interval),
{
    match now.checked_minus(interval) {
        None => None,
        Some(boundary) => {
            let start = match classify_tick(last_state, now, interval) {
                WindowMode::Continuing => match last_state {
                    Some(state) => match state.end_time {
                        Some(end) => end,
                        None => now,
                    },
                    None => now,
                },
                _ => boundary,
            };
            match start.checked_plus(interval) {
                Some(end) => Some(ActivityPeriod { start_time: start, end_time: end }),
                None => None,
            }
        },
    }
}

/// Without a previous activity state the window is exactly
/// `[now - interval, now)`.
pub proof fn lemma_first_window(now: int, interval: int)
    ensures
        window_mode(None, now, interval) == WindowMode::NoPriorWindow,
        window_start(None, now, interval) == now - interval,
        window_end(None, now, interval) == now,
{
}

/// When the previous window ended within the grace time of
/// `now - interval`, the next window starts exactly where it ended.
pub proof fn lemma_continuation(end: int, now: int, interval: int)
    requires
        end + GRACE_NANOS > now - interval,
    ensures
        window_mode(Some(end), now, interval) == WindowMode::Continuing,
        window_start(Some(end), now, interval) == end,
        window_end(Some(end), now, interval) == end + interval,
{
}

/// When the previous window ended more than the grace time before
/// `now - interval`, the next window snaps to `[now - interval, now)`.
pub proof fn lemma_gap_snaps_to_now(end: int, now: int, interval: int)
    requires
        end + GRACE_NANOS <= now - interval,
    ensures
        window_mode(Some(end), now, interval) == WindowMode::GapDetected,
        window_start(Some(end), now, interval) == now - interval,
        window_end(Some(end), now, interval) == now,
{
}

/// A window never starts before the previous one ended, and always lasts
/// one interval: windows are contiguous or separated by a gap, never
/// overlapping.
pub proof fn lemma_windows_do_not_overlap(end: int, now: int, interval: int)
    ensures
        window_start(Some(end), now, interval) >= end,
        window_end(Some(end), now, interval) - window_start(Some(end), now, interval) == interval,
        window_mode(Some(end), now, interval) == WindowMode::Continuing ==> window_start(
            Some(end),
            now,
            interval,
        ) == end,
{
}

} // verus!
