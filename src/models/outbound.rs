//! The one network call a query makes, as the library hands it out and takes
//! its outcome back.
use serde_json::Value;
use vstd::prelude::*;

verus! {

/// A `POST` with a JSON body, for the caller to send.
#[derive(Debug)]
pub struct OutboundRequest {
    pub url: String,
    pub body: Value,
}

/// What came of sending an [`OutboundRequest`].
#[derive(Debug)]
pub enum CallOutcome {
    /// The request could not be sent or no response came (connection refused,
    /// timeout, name resolution); the transport's description of the failure.
    SendFailed(String),
    /// A response came but its body could not be read; the description.
    ReadFailed(String),
    /// The full body of the response.
    Received(String),
}

} // verus!
