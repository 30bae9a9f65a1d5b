//! The tables of the CMDB's earlier MySQL schema.
pub mod cloudserver;
pub mod instance;
pub mod logservice;
