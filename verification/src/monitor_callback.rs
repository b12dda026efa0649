//! Settings of the monitoring service.
use vstd::prelude::*;
use crate::clock::Span;

verus! {

/// Length of a scheduler tick unless another is chosen, in nanoseconds.
pub const DEFAULT_INTERVAL_NANOS: u64 = 60_000_000_000;

/// Where the service stores its data and how often it classifies.
#[derive(Clone, Debug)]
pub struct MonitoringConfig {
    pub db_path: String,
    pub activity_state_interval: Span,
}

impl MonitoringConfig {
    /// Settings for the database at `db_path`, with one-minute ticks.
    pub fn new(db_path: String) -> (config: MonitoringConfig)
        ensures
            config.db_path == db_path,
            config.activity_state_interval == (Span { nanos: DEFAULT_INTERVAL_NANOS }),
    {
        MonitoringConfig { db_path, activity_state_interval: Span { nanos: DEFAULT_INTERVAL_NANOS } }
    }

    /// The same settings with ticks of length `interval`.
    pub fn with_interval(self, interval: Span) -> (config: MonitoringConfig)
        ensures
            config.db_path == self.db_path,
            config.activity_state_interval == interval,
    {
        MonitoringConfig { db_path: self.db_path, activity_state_interval: interval }
    }
}

} // verus!
