//! The `cloudserver` tables.
pub mod instance;
