//! Loading the registry and making the outbound call.
pub mod config_handler;
pub mod query_handler;
