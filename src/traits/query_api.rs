//! One query against one resolved backend.
use crate::errors::handler_error::HandlerError;
use crate::models::outbound::{CallOutcome, OutboundRequest};
use crate::models::query::QueryResponse;
use vstd::prelude::*;

verus! {

/// Sends a query to a backend whose address is known.
pub trait QueryApiHandler {
    /// The call that carries the query, or why none can be made.
    fn query(&self) -> Result<OutboundRequest, HandlerError>;

    /// The answer that the outcome of that call gives.
    fn query_response(&self, outcome: CallOutcome) -> Result<QueryResponse, HandlerError>;
}

} // verus!
