//! Errors that the dispatcher reports to the adapters.
use vstd::prelude::*;

verus! {

/// A string as Rust's `Debug` format writes it: quoted, with escapes.
pub uninterp spec fn debug_text(s: Seq<char>) -> Seq<char>;

/// Relies on the `Debug` format of `str`: the result depends on the text alone.
#[verifier::external_body]
fn debug_string(s: &str) -> (r: String)
    ensures
        r@ == debug_text(s@),
{
    format!("{:?}", s)
}

/// What went wrong while dispatching a query.
#[derive(Debug, PartialEq, Eq)]
pub enum ServiceError {
    ValidationFailed(String),
    NotFound(String),
    QueryFailed(String),
    McpError(String),
}

impl ServiceError {
    /// The message that describes the error; the detail is quoted.
    pub open spec fn text(&self) -> Seq<char> {
        match self {
            ServiceError::ValidationFailed(m) => "[SE]:Validation failed: "@ + debug_text(m@),
            ServiceError::NotFound(m) => "[SE]:Not found: "@ + debug_text(m@),
            ServiceError::QueryFailed(m) => "[SE]:Query failed: "@ + debug_text(m@),
            ServiceError::McpError(m) => "[SE]:MCP error: "@ + debug_text(m@),
        }
    }

    /// The message that describes the error; the detail is quoted.
    pub fn to_string(&self) -> (r: String)
        ensures
            r@ == self.text(),
    {
        let (mut r, m) = match self {
            ServiceError::ValidationFailed(m) => (String::from_str("[SE]:Validation failed: "), m),
            ServiceError::NotFound(m) => (String::from_str("[SE]:Not found: "), m),
            ServiceError::QueryFailed(m) => (String::from_str("[SE]:Query failed: "), m),
            ServiceError::McpError(m) => (String::from_str("[SE]:MCP error: "), m),
        };
        let quoted = debug_string(m.as_str());
        r.append(quoted.as_str());
        r
    }
}

} // verus!
