//! The cloud-API services of the earlier schema.
pub mod account_service;
