//! The tool-protocol adapter: a tool request is turned into a logical query and
//! dispatched to the one backend the tool is scoped to.
use crate::errors::service_error::debug_text;
use crate::handlers::query_handler::{has_address, query_url, received_response};
use crate::models::central_query::{central_query_for, CentralQuery};
use crate::models::outbound::{CallOutcome, OutboundRequest};
use crate::models::query_wire::encodes_request;
use crate::models::rag_config::{service_named, Rag, RagServices, RagView};
use crate::models::rag_mcp::LlmQueryRequest;
use crate::services::query_service::{central_response_spec, dispatch_reply, process_failed_prefix};
use crate::traits::service_api::ServiceApiHandler;
use vstd::prelude::*;

verus! {

/// The backend that the tool speaks to.
pub open spec fn engineering_backend() -> RagView {
    RagView {
        rag_name: "software engineering"@,
        rag_ip: "host.docker.internal"@,
        rag_port: "9621"@,
    }
}

/// The registry the tool uses: its one backend.
pub fn software_engineering_services() -> (r: RagServices)
    ensures
        r@ == seq![engineering_backend()],
{
    let backend = Rag {
        rag_name: String::from_str("software engineering"),
        rag_ip: String::from_str("host.docker.internal"),
        rag_port: String::from_str("9621"),
    };
    let mut services: Vec<Rag> = Vec::new();
    services.push(backend);
    let r = RagServices { services };
    assert(r@ =~= seq![engineering_backend()]);
    r
}

/// The call that the tool makes for `query`, or the message of the tool error.
/// Only requests naming the tool's backend get through.
pub fn ask_to_software_engineer(query: &LlmQueryRequest) -> (r: Result<OutboundRequest, String>)
    ensures
        query.rag_name@.len() == 0 ==> (r matches Err(m) && m@ == "[SE]:Validation failed: "@
            + debug_text("Rag service is empty: "@)),
        query.rag_name@.len() > 0 && query.rag_name@ != engineering_backend().rag_name ==> (
        r matches Err(m) && m@ == "[SE]:Not found: "@ + debug_text(
            "Service not found: "@ + query.rag_name@,
        )),
        query.rag_name@ == engineering_backend().rag_name ==> (r matches Ok(req) && req.url@
            == query_url(engineering_backend()) && encodes_request(
            req.body,
            central_query_for(query@).query,
        )),
{
    let central = match CentralQuery::from_llm_query_request(query) {
        Ok(c) => c,
        Err(e) => return Err(e),
    };
    let services = software_engineering_services();
    proof {
        reveal_with_fuel(service_named, 2);
        reveal_strlit("host.docker.internal");
        reveal_strlit("9621");
        reveal_strlit("software engineering");
        assert(has_address(engineering_backend()));
        assert(engineering_backend().rag_name.len() > 0);
        assert(seq![engineering_backend()].drop_first() =~= Seq::<RagView>::empty());
        if central.rag_name@.len() == 0 {
            assert("Rag service is empty: "@ + central.rag_name@ =~= "Rag service is empty: "@);
        }
    }
    match central.central_query(&services) {
        Ok(req) => Ok(req),
        Err(e) => Err(e.to_string()),
    }
}

/// What the tool returns for the outcome of its call: the answer's text, or the
/// message of the tool error.
pub open spec fn tool_answer_spec(outcome: CallOutcome, r: Result<String, String>) -> bool {
    match outcome {
        CallOutcome::SendFailed(d) => r matches Err(m) && m@ == "[SE]:Query failed: "@
            + debug_text(process_failed_prefix() + "Query request failed: "@ + d@),
        CallOutcome::ReadFailed(d) => r matches Err(m) && m@ == "[SE]:Query failed: "@
            + debug_text(process_failed_prefix() + "Failed to read response body: "@ + d@),
        CallOutcome::Received(body) => match received_response(body@) {
            Some(x) => r matches Ok(text) && text@ == x.response,
            None => r matches Err(m) && "[SE]:Query failed: "@.is_prefix_of(m@),
        },
    }
}

/// The tool's result for the outcome of its call.
pub fn ask_to_software_engineer_response(outcome: CallOutcome) -> (r: Result<String, String>)
    ensures
        tool_answer_spec(outcome, r),
{
    let ghost o = outcome;
    let reply = dispatch_reply(outcome);
    assert(central_response_spec(o, reply));
    match reply {
        Ok(answer) => Ok(answer.response),
        Err(e) => {
            let m = e.to_string();
            proof {
                let prefix = "[SE]:Query failed: "@;
                assert(prefix =~= m@.subrange(0, prefix.len() as int));
            }
            Err(m)
        },
    }
}

} // verus!
