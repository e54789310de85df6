//! The outbound call to a resolved backend, and the reading of its reply.
use crate::errors::handler_error::HandlerError;
use crate::json::{json_document, json_error_detail, parse_json};
use crate::models::outbound::{CallOutcome, OutboundRequest};
use crate::models::query::{QueryResponse, QueryResponseView, RagQuery};
use crate::models::query_wire::{encodes_request, response_of};
use crate::models::rag_config::RagView;
use crate::traits::query_api::QueryApiHandler;
use vstd::prelude::*;

verus! {

/// A backend's address is usable: neither its host nor its port is empty.
pub open spec fn has_address(r: RagView) -> bool {
    r.rag_ip.len() > 0 && r.rag_port.len() > 0
}

/// Where a backend takes queries: `http://{host}:{port}/query`.
pub open spec fn query_url(r: RagView) -> Seq<char> {
    "http://"@ + r.rag_ip + ":"@ + r.rag_port + "/query"@
}

/// The detail given for a backend without a usable address.
pub open spec fn unusable_address_text(r: RagView) -> Seq<char> {
    "Check service information "@ + r.rag_name + "="@ + r.rag_ip + ":"@ + r.rag_port
}

/// The answer that a reply body holds, if it is JSON of the right shape.
pub open spec fn received_response(body: Seq<char>) -> Option<QueryResponseView> {
    match json_document(body) {
        Some(v) => response_of(v),
        None => None,
    }
}

/// The start of the detail given for a reply that holds no answer.
pub open spec fn unreadable_reply_prefix() -> Seq<char> {
    "Failed to deserialize response into QueryResponse: "@
}

/// Every way the outcome of a call can end, as `query_response` reports it.
pub open spec fn query_response_spec(
    outcome: CallOutcome,
    r: Result<QueryResponse, HandlerError>,
) -> bool {
    match outcome {
        CallOutcome::SendFailed(d) => r matches Err(HandlerError::ProcessFailed(m)) && m@
            == "Query request failed: "@ + d@,
        CallOutcome::ReadFailed(d) => r matches Err(HandlerError::ProcessFailed(m)) && m@
            == "Failed to read response body: "@ + d@,
        CallOutcome::Received(body) => match received_response(body@) {
            Some(x) => r matches Ok(q) && q@ == x,
            None => r matches Err(HandlerError::ProcessFailed(m))
                && unreadable_reply_prefix().is_prefix_of(m@),
        },
    }
}

impl QueryApiHandler for RagQuery {
    /// Refuses a backend whose host or port is empty before anything is sent;
    /// otherwise the call posts the query's document to the backend.
    fn query(&self) -> (r: Result<OutboundRequest, HandlerError>)
        ensures
            !has_address(self.rag_service@) ==> (r matches Err(HandlerError::ValidationFailed(m))
                && m@ == unusable_address_text(self.rag_service@)),
            has_address(self.rag_service@) ==> (r matches Ok(req) && req.url@ == query_url(
                self.rag_service@,
            ) && encodes_request(req.body, self.query_request@)),
    {
        let service = &self.rag_service;
        if service.rag_ip.as_str().is_empty() || service.rag_port.as_str().is_empty() {
            let mut m = String::from_str("Check service information ");
            m.append(service.rag_name.as_str());
            m.append("=");
            m.append(service.rag_ip.as_str());
            m.append(":");
            m.append(service.rag_port.as_str());
            return Err(HandlerError::ValidationFailed(m));
        }
        let mut url = String::from_str("http://");
        url.append(service.rag_ip.as_str());
        url.append(":");
        url.append(service.rag_port.as_str());
        url.append("/query");
        Ok(OutboundRequest { url, body: self.query_request.to_json() })
    }

    /// A transport failure or an unreadable body is reported, not retried; a
    /// body that is not JSON or not an answer is reported, not defaulted; an
    /// answer is returned as it came.
    fn query_response(&self, outcome: CallOutcome) -> (r: Result<QueryResponse, HandlerError>)
        ensures
            query_response_spec(outcome, r),
    {
        read_reply(outcome)
    }
}

/// The answer that the outcome of a call gives.
pub fn read_reply(outcome: CallOutcome) -> (r: Result<QueryResponse, HandlerError>)
    ensures
        query_response_spec(outcome, r),
{
    match outcome {
        CallOutcome::SendFailed(d) => {
            let mut m = String::from_str("Query request failed: ");
            m.append(d.as_str());
            Err(HandlerError::ProcessFailed(m))
        },
        CallOutcome::ReadFailed(d) => {
            let mut m = String::from_str("Failed to read response body: ");
            m.append(d.as_str());
            Err(HandlerError::ProcessFailed(m))
        },
        CallOutcome::Received(body) => {
            let mut m = String::from_str("Failed to deserialize response into QueryResponse: ");
            let ghost prefix = m@;
            match parse_json(body.as_str()) {
                Err(e) => {
                    let detail = json_error_detail(&e);
                    m.append(detail.as_str());
                    assert(prefix.is_prefix_of(m@));
                    Err(HandlerError::ProcessFailed(m))
                },
                Ok(v) => match QueryResponse::from_json(&v) {
                    Some(x) => Ok(x),
                    None => {
                        m.append("the body is not an object with a `response` and `references`");
                        assert(prefix.is_prefix_of(m@));
                        Err(HandlerError::ProcessFailed(m))
                    },
                },
            }
        },
    }
}

} // verus!
