//! Dispatching a logical query: resolve the backend, make one call, read the
//! reply.

use crate::errors::service_error::ServiceError;
use crate::handlers::query_handler::{
    has_address, query_response_spec, query_url, read_reply, received_response,
    unreadable_reply_prefix, unusable_address_text,
};
use crate::models::central_query::CentralQuery;
use crate::models::outbound::{CallOutcome, OutboundRequest};
use crate::models::query::{QueryRequestView, QueryResponse, RagQuery};
use crate::models::query_wire::encodes_request;
use crate::models::rag_config::{service_named, RagServices, RagView};
use crate::traits::query_api::QueryApiHandler;
use crate::traits::service_api::ServiceApiHandler;
use vstd::prelude::*;

verus! {

/// The prefix of every detail that a failed call leaves in `QueryFailed`.
pub open spec fn process_failed_prefix() -> Seq<char> {
    "[HE]:Process failed: "@
}

/// Every way the outcome of a call can end, as the dispatcher reports it.
pub open spec fn central_response_spec(
    outcome: CallOutcome,
    r: Result<QueryResponse, ServiceError>,
) -> bool {
    match outcome {
        CallOutcome::SendFailed(d) => r matches Err(ServiceError::QueryFailed(m)) && m@
            == process_failed_prefix() + "Query request failed: "@ + d@,
        CallOutcome::ReadFailed(d) => r matches Err(ServiceError::QueryFailed(m)) && m@
            == process_failed_prefix() + "Failed to read response body: "@ + d@,
        CallOutcome::Received(body) => match received_response(body@) {
            Some(x) => r matches Ok(q) && q@ == x,
            None => r matches Err(ServiceError::QueryFailed(m)) && (process_failed_prefix()
                + unreadable_reply_prefix()).is_prefix_of(m@),
        },
    }
}

/// What the dispatcher returns for a query `q` to the resolved backend `b`: the
/// call to it where its address is usable, else a validation error.
pub open spec fn resolved_request_spec(
    b: RagView,
    q: QueryRequestView,
    r: Result<OutboundRequest, ServiceError>,
) -> bool {
    if has_address(b) {
        r matches Ok(req) && req.url@ == query_url(b) && encodes_request(req.body, q)
    } else {
        r matches Err(ServiceError::ValidationFailed(m)) && m@ == "[HE]:Validation failed: "@
            + unusable_address_text(b)
    }
}

/// The answer, or the dispatcher's error, that the outcome of a call gives.
pub fn dispatch_reply(outcome: CallOutcome) -> (r: Result<QueryResponse, ServiceError>)
    ensures
        central_response_spec(outcome, r),
{
    let ghost o = outcome;
    let reply = read_reply(outcome);
    assert(query_response_spec(o, reply));
    match reply {
        Ok(x) => Ok(x),
        Err(e) => {
            let m = e.to_string();
            proof {
                let e_m = e->ProcessFailed_0@;
                assert(m@ == process_failed_prefix() + e_m);
                match o {
                    CallOutcome::SendFailed(d) => {
                        assert(m@ =~= process_failed_prefix() + "Query request failed: "@ + d@);
                    },
                    CallOutcome::ReadFailed(d) => {
                        assert(m@ =~= process_failed_prefix() + "Failed to read response body: "@
                            + d@);
                    },
                    CallOutcome::Received(body) => {
                        let p = unreadable_reply_prefix();
                        assert((process_failed_prefix() + p) =~= m@.subrange(
                            0,
                            (process_failed_prefix() + p).len() as int,
                        ));
                    },
                }
            }
            Err(ServiceError::QueryFailed(m))
        },
    }
}

impl ServiceApiHandler for CentralQuery {
    /// Refuses an empty name, then a name the registry does not hold, then a
    /// backend without a usable address, all before anything is sent; otherwise
    /// the call posts the query's document to the first backend of that name.
    fn central_query(&self, rag_services: &RagServices) -> (r: Result<
        OutboundRequest,
        ServiceError,
    >)
        ensures
            self.rag_name@.len() == 0 ==> (r matches Err(ServiceError::ValidationFailed(m)) && m@
                == "Rag service is empty: "@),
            self.rag_name@.len() > 0 && service_named(rag_services@, self.rag_name@) is None ==> (
            r matches Err(ServiceError::NotFound(m)) && m@ == "Service not found: "@
                + self.rag_name@),
            self.rag_name@.len() > 0 && service_named(rag_services@, self.rag_name@) is Some
                ==> resolved_request_spec(
                service_named(rag_services@, self.rag_name@)->0,
                self.query@,
                r,
            ),
    {
        if self.rag_name.as_str().is_empty() {
            let mut m = String::from_str("Rag service is empty: ");
            m.append(self.rag_name.as_str());
            return Err(ServiceError::ValidationFailed(m));
        }
        let found = match rag_services.get_service_by_name(self.rag_name.as_str()) {
            Some(found) => found,
            None => {
                let mut m = String::from_str("Service not found: ");
                m.append(self.rag_name.as_str());
                return Err(ServiceError::NotFound(m));
            },
        };
        let query_request = RagQuery { rag_service: found, query_request: self.query.clone() };
        match query_request.query() {
            Ok(req) => Ok(req),
            Err(e) => Err(ServiceError::ValidationFailed(e.to_string())),
        }
    }

    /// A failed call is reported as `QueryFailed`, carrying the lower layer's
    /// message; an answer is returned unchanged.
    fn central_query_response(&self, outcome: CallOutcome) -> (r: Result<
        QueryResponse,
        ServiceError,
    >)
        ensures
            central_response_spec(outcome, r),
    {
        dispatch_reply(outcome)
    }
}

} // verus!
