//! The request-level rules.

pub mod admission;
pub mod create_group;
pub mod get_server_configuration;
pub mod validations;
