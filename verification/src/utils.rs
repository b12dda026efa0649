//! Small helpers shared by the services.
pub mod ids;
pub mod log;
pub mod text;
