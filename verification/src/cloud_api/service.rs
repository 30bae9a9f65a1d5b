//! The cloud-API services.
pub mod account_service;
pub mod script_caller;
