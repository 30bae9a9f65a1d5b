//! The decisions behind the cloud-API's HTTP endpoints.
pub mod filter;
pub mod system_manage;
