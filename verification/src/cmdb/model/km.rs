//! The `km` tables.
pub mod cloud_account;
pub mod cron_job;
pub mod job_log;
