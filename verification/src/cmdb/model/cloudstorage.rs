//! The `cloudstorage` tables.
pub mod bucket;
