//! The `cloudserver` tables of the earlier schema.
pub mod instance;
