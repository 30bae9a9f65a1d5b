//! The `yell` services.
pub mod channel_config_service;
pub mod notification_record_service;
pub mod notification_template_service;
