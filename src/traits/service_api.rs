//! A query addressed to a backend by name.
use crate::errors::service_error::ServiceError;
use crate::models::outbound::{CallOutcome, OutboundRequest};
use crate::models::query::QueryResponse;
use crate::models::rag_config::RagServices;
use vstd::prelude::*;

verus! {

/// Resolves a backend by name and sends it a query.
pub trait ServiceApiHandler {
    /// The call that carries the query to the backend the registry names, or
    /// why none can be made.
    fn central_query(&self, rag_services: &RagServices) -> Result<OutboundRequest, ServiceError>;

    /// The answer that the outcome of that call gives.
    fn central_query_response(&self, outcome: CallOutcome) -> Result<QueryResponse, ServiceError>;
}

} // verus!
