//! The `watchman` services.
pub mod group_service;
