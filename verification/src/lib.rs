//! Verified core of the CMDB back end and of the cloud-API subsystem:
//! JSON request cleaning, row extraction, query planning, table dispatch,
//! service result mapping and configuration loading.
pub mod json;
pub mod text;

pub mod table;
pub mod mailman;
pub mod clock;
pub mod ident;
pub mod fields;
pub mod query;
pub mod cmdb;
pub mod registry;
pub mod stamp;
pub mod cloud_api;
