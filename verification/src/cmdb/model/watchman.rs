//! The `watchman` tables.
pub mod access;
pub mod service;
pub mod subsystem;
pub mod token;
pub mod user;
pub mod webhook;
