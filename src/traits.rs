//! The operations that the gateway's layers offer each other.
pub mod config_api;
pub mod query_api;
pub mod service_api;
