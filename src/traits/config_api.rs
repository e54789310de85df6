//! Loading the registry.
use crate::errors::handler_error::HandlerError;
use vstd::prelude::*;

verus! {

/// Builds a registry from the text of its file.
pub trait ServiceConfigurationHandler: Sized {
    /// The registry that the file at `path` holds; `read` is what reading it
    /// gave: its text, or the reason it could not be read.
    fn init(path: &str, read: Result<String, String>) -> Result<Self, HandlerError>;
}

} // verus!
