//! The cloud-API's tables.
pub mod cloud_account;
