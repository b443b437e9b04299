//! Decisions behind keeping every stored session under one shared model provider.
//!
//! The library touches neither files nor databases. Each operation that alternates
//! storage work with decisions is a state machine: an action function says what has
//! to be done next, and a step function takes what came back and moves the state on.

pub mod error;
pub mod lists;
pub mod lock;
pub mod lock_run;
pub mod messages;
pub mod models;
pub mod query;
pub mod query_run;
pub mod scan;
pub mod status;
pub mod status_course;
pub mod status_run;
pub mod story;
pub mod sync;
pub mod sync_course;
pub mod sync_laws;
pub mod sync_run;
pub mod text;
pub mod types;
