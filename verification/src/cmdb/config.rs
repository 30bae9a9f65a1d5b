//! The CMDB's configuration.
pub mod server;
