//! Errors of checking a backend's health apart from a query.
use vstd::prelude::*;

verus! {

/// What went wrong while checking a backend.
#[derive(Debug, PartialEq, Eq)]
pub enum ExternalCallError {
    ValidationFailed(String),
    HealthFailed(String),
    ResponseFailed(String),
}

impl ExternalCallError {
    /// The message that describes the error.
    pub open spec fn text(&self) -> Seq<char> {
        match self {
            ExternalCallError::ValidationFailed(m) => "ExternalCallError::ValidationFailed: "@ + m@,
            ExternalCallError::HealthFailed(m) => "ExternalCallError::HealthFailed: "@ + m@,
            ExternalCallError::ResponseFailed(m) => "ExternalCallError::ResponseFailed: "@ + m@,
        }
    }

    /// The message that describes the error.
    pub fn to_string(&self) -> (r: String)
        ensures
            r@ == self.text(),
    {
        let (mut r, m) = match self {
            ExternalCallError::ValidationFailed(m) => (
                String::from_str("ExternalCallError::ValidationFailed: "),
                m,
            ),
            ExternalCallError::HealthFailed(m) => (
                String::from_str("ExternalCallError::HealthFailed: "),
                m,
            ),
            ExternalCallError::ResponseFailed(m) => (
                String::from_str("ExternalCallError::ResponseFailed: "),
                m,
            ),
        };
        r.append(m.as_str());
        r
    }
}

} // verus!
