//! The `instance` tables of the earlier schema.
pub mod light_ecs;
