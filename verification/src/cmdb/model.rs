//! The tables of the CMDB: rows, request records, filters and store outcomes.
pub mod cloudserver;
pub mod cloudstorage;
pub mod km;
pub mod lighthouse;
pub mod logservice;
pub mod watchman;
pub mod yell;
