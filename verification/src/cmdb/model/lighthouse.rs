//! The `lighthouse` tables.
pub mod instance;
