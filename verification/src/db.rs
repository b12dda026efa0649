//! Records the classification core reads and produces.
pub mod activity_repo;
pub mod db_manager;
pub mod error;
pub mod models;
pub mod tag_repo;
pub mod types;
