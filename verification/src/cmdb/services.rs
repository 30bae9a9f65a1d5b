//! The CMDB services of the earlier schema.
pub mod cloudserver;
