//! The `km` services.
pub mod cron_job_service;
