//! The `cloudserver` services of the earlier schema.
pub mod instance_service;
