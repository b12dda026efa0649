//! Classification core of a desktop activity monitor.
//!
//! Raw keyboard, mouse and window-focus events are recorded as activities;
//! a periodic tick groups them into contiguous activity states and labels
//! each state with productivity tags. Storage, timers and the event source
//! live with the caller, which performs the requests that the step
//! functions of [`services`] name and hands the replies back.
pub mod clock;
pub mod db;
pub mod event;
pub mod monitor_callback;
pub mod services;
pub mod utils;
