//! An embedded, persistent key-value store whose keys carry a lifecycle:
//! each key has an access counter, a creation time and an optional
//! expiration deadline, and expired keys are reaped from every index at once.

pub mod db;
pub mod index;
pub mod metadata;
pub mod model;
pub mod plan;
pub mod reaper;
pub mod storage;

pub use db::errors::TransientError;
pub use db::DB;
pub use metadata::Metadata;
pub use reaper::{ReaperEvent, ReaperState};
