//! The debouncer, the period scheduler, tag derivation and the application
//! identity resolver.
pub mod activities_service;
pub mod activity_state_service;
pub mod app_resolver;
pub mod app_service;
pub mod app_switch_service;
