//! Activity states: one classified time window per scheduler tick.
use vstd::prelude::*;
use crate::clock::{wall_clock_now, Span, Timestamp};
use crate::utils::text::same_text;

verus! {

/// Length of the window a blank activity state covers, in nanoseconds.
pub const DEFAULT_WINDOW_NANOS: u64 = 120_000_000_000;

/// Whether the user was engaged during a window.
#[derive(Clone, Copy, Debug, PartialEq, Eq, Structural)]
pub enum ActivityStateType {
    Active,
    Inactive,
}

impl ActivityStateType {
    /// The classification a stored name stands for, if it names one.
    pub open spec fn spec_parse(name: Seq<char>) -> Option<ActivityStateType> {
        if name == "ACTIVE"@ {
            Some(ActivityStateType::Active)
        } else if name == "INACTIVE"@ {
            Some(ActivityStateType::Inactive)
        } else {
            None
        }
    }

    /// The upper-case name under which the classification is stored.
    pub open spec fn spec_name(self) -> Seq<char> {
        match self {
            ActivityStateType::Active => "ACTIVE"@,
            ActivityStateType::Inactive => "INACTIVE"@,
        }
    }

    /// Reads a stored classification; `None` for any other name.
    pub fn parse(name: &str) -> (state: Option<ActivityStateType>)
        ensures
            state == ActivityStateType::spec_parse(name@),
    {
        if same_text(name, "ACTIVE") {
            Some(ActivityStateType::Active)
        } else if same_text(name, "INACTIVE") {
            Some(ActivityStateType::Inactive)
        } else {
            None
        }
    }

    /// The name under which the classification is stored.
    pub fn name(&self) -> (name: &'static str)
        ensures
            name@ == self.spec_name(),
    {
        match self {
            ActivityStateType::Active => "ACTIVE",
            ActivityStateType::Inactive => "INACTIVE",
        }
    }
}

/// A half-open window `[start_time, end_time)` with its classification.
#[derive(Clone, Copy, Debug, PartialEq, Eq, Structural)]
pub struct ActivityState {
    pub id: Option<i64>,
    pub state: ActivityStateType,
    pub app_switches: i64,
    pub start_time: Option<Timestamp>,
    pub end_time: Option<Timestamp>,
    pub created_at: Option<Timestamp>,
}

impl ActivityState {
    /// The blank state created at `now`: inactive, no switches, covering
    /// the two minutes that end at `now`.
    pub open spec fn spec_blank(now: Timestamp) -> ActivityState {
        ActivityState {
            id: None,
            state: ActivityStateType::Inactive,
            app_switches: 0,
            start_time: Some(Timestamp { nanos: (now.nanos - DEFAULT_WINDOW_NANOS) as i128 }),
            end_time: Some(now),
            created_at: Some(now),
        }
    }

    /// The blank state created at `now`.
    pub fn blank_at(now: Timestamp) -> (state: ActivityState)
        requires
            now.can_sub(Span { nanos: DEFAULT_WINDOW_NANOS }),
        ensures
            state == ActivityState::spec_blank(now),
    {
        ActivityState {
            id: None,
            state: ActivityStateType::Inactive,
            app_switches: 0,
            start_time: Some(now.minus(Span { nanos: DEFAULT_WINDOW_NANOS })),
            end_time: Some(now),
            created_at: Some(now),
        }
    }

    /// The blank state created at `now`, or `None` when `now` is within
    /// two minutes of the start of the counter.
    pub open spec fn spec_blank_if_representable(now: Timestamp) -> Option<ActivityState> {
        if now.can_sub(Span { nanos: DEFAULT_WINDOW_NANOS }) {
            Some(ActivityState::spec_blank(now))
        } else {
            None
        }
    }

    /// The blank state created at the instant the wall clock shows, or
    /// `None` when that instant is within two minutes of the start of the
    /// counter.
    pub fn new() -> (state: Option<ActivityState>)
        ensures
            exists|now: Timestamp| state == #[trigger] ActivityState::spec_blank_if_representable(now),
    {
        let now = wall_clock_now();
        let state = match now.checked_minus(Span { nanos: DEFAULT_WINDOW_NANOS }) {
            Some(_) => Some(ActivityState::blank_at(now)),
            None => None,
        };
        assert(state == ActivityState::spec_blank_if_representable(now));
        state
    }
}

} // verus!
