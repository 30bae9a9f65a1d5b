//! The decisions behind the CMDB's HTTP endpoints.
pub mod filter;
pub mod table_manage;
pub mod table_answer;
pub mod hey_hi_hello;
pub mod system_manage;
