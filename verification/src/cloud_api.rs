//! The cloud-API subsystem: its request filters, account model, services and
//! script runner.
pub mod api;
pub mod models;
pub mod service;
pub mod services;
