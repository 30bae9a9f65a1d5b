//! The CMDB services: how model outcomes are answered.
pub mod km;
pub mod watchman;
pub mod yell;
