//! A gateway that resolves a named retrieval backend from a registry, builds the
//! outbound query for it, and normalises the backend's reply.
pub mod config;
pub mod errors;
pub mod json;
pub mod handlers;
pub mod models;
pub mod services;
pub mod traits;
