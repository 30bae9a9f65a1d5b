//! The `logservice` tables.
pub mod topic;
