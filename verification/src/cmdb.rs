//! The CMDB back end: its request handling, configuration, models and
//! services.
pub mod api;
pub mod config;
pub mod model;
pub mod service;
pub mod models;
pub mod services;
