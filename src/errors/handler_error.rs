//! Errors of loading the registry and of the outbound call.
use vstd::prelude::*;

verus! {

/// What went wrong while loading the registry or calling a backend.
#[derive(Debug, PartialEq, Eq)]
pub enum HandlerError {
    ValidationFailed(String),
    ReadFileFailed(String),
    FileJsonParseFailed(String),
    ProcessFailed(String),
}

impl HandlerError {
    /// The message that describes the error.
    pub open spec fn text(&self) -> Seq<char> {
        match self {
            HandlerError::ValidationFailed(m) => "[HE]:Validation failed: "@ + m@,
            HandlerError::ReadFileFailed(m) => "[HE]:Read file failed: "@ + m@,
            HandlerError::FileJsonParseFailed(m) => "[HE]:Parse JSON file failed: "@ + m@,
            HandlerError::ProcessFailed(m) => "[HE]:Process failed: "@ + m@,
        }
    }

    /// The message that describes the error.
    pub fn to_string(&self) -> (r: String)
        ensures
            r@ == self.text(),
    {
        let (mut r, m) = match self {
            HandlerError::ValidationFailed(m) => (String::from_str("[HE]:Validation failed: "), m),
            HandlerError::ReadFileFailed(m) => (String::from_str("[HE]:Read file failed: "), m),
            HandlerError::FileJsonParseFailed(m) => (
                String::from_str("[HE]:Parse JSON file failed: "),
                m,
            ),
            HandlerError::ProcessFailed(m) => (String::from_str("[HE]:Process failed: "), m),
        };
        r.append(m.as_str());
        r
    }
}

} // verus!
