//! The `logservice` tables of the earlier schema.
pub mod topic;
