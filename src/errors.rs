//! The error kinds of each layer, each carrying a free-text detail.
pub mod external_error;
pub mod handler_error;
pub mod service_error;
