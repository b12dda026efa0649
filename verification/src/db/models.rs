//! One module per stored record.
pub mod activity;
pub mod activity_state;
pub mod app;
pub mod app_tag;
pub mod blocked_activity;
pub mod tag;
