//! The `yell` tables.
pub mod channel_config;
pub mod notification_record;
pub mod notification_template;
