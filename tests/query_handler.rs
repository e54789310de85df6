use kodabi_lightrag_mcp::errors::handler_error::HandlerError;
use kodabi_lightrag_mcp::models::outbound::CallOutcome;
use kodabi_lightrag_mcp::models::query::{QueryMode, QueryRequest, RagQuery};
use kodabi_lightrag_mcp::models::rag_config::Rag;
use kodabi_lightrag_mcp::traits::query_api::QueryApiHandler;

fn sample_request() -> QueryRequest {
    QueryRequest {
        query: "What is the capital of France?".to_string(),
        mode: QueryMode::LOCAL,
        only_need_context: None,
        only_need_prompt: None,
        response_type: "text".to_string(),
        top_k: 3,
        chunk_top_k: 2,
        max_entity_tokens: 50,
        max_relation_tokens: 10,
        max_total_tokens: 200,
        conversation_history: None,
        user_prompt: None,
        enable_rerank: None,
        include_references: true,
        stream: None,
    }
}

fn rag_query(ip: &str, port: &str) -> RagQuery {
    RagQuery {
        rag_service: Rag {
            rag_name: "software engineering".to_string(),
            rag_ip: ip.to_string(),
            rag_port: port.to_string(),
        },
        query_request: sample_request(),
    }
}

#[test]
fn test_invalid_service_configuration() {
    let rag_service = Rag {
        rag_name: "software engineering".to_string(),
        rag_ip: "".to_string(),
        rag_port: "8080".to_string(),
    };
    let rag_query = RagQuery { rag_service, query_request: sample_request() };

    let result = rag_query.query();

    assert!(result.is_err());
    let error = result.unwrap_err();
    assert!(error.to_string().contains("Check service information"));
}

#[test]
fn empty_port_is_refused_with_the_address_in_the_message() {
    let error = rag_query("10.0.0.1", "").query().unwrap_err();
    assert_eq!(
        error,
        HandlerError::ValidationFailed(
            "Check service information software engineering=10.0.0.1:".to_string()
        )
    );
}

#[test]
fn query_posts_to_the_query_path_of_the_backend() {
    let request = rag_query("10.0.0.1", "8080").query().unwrap();
    assert_eq!(request.url, "http://10.0.0.1:8080/query");
    let body = QueryRequest::from_json(&request.body).unwrap();
    assert_eq!(body, sample_request());
}

#[test]
fn transport_failure_is_a_process_error() {
    let r = rag_query("h", "1").query_response(CallOutcome::SendFailed("refused".to_string()));
    assert_eq!(
        r.unwrap_err(),
        HandlerError::ProcessFailed("Query request failed: refused".to_string())
    );
}

#[test]
fn unreadable_body_is_a_process_error() {
    let r = rag_query("h", "1").query_response(CallOutcome::ReadFailed("cut".to_string()));
    assert_eq!(
        r.unwrap_err(),
        HandlerError::ProcessFailed("Failed to read response body: cut".to_string())
    );
}

#[test]
fn body_that_is_not_json_is_reported() {
    let r = rag_query("h", "1").query_response(CallOutcome::Received("pong".to_string()));
    match r.unwrap_err() {
        HandlerError::ProcessFailed(m) => {
            assert!(m.starts_with("Failed to deserialize response into QueryResponse: "))
        }
        other => panic!("unexpected error {:?}", other),
    }
}

#[test]
fn body_of_the_wrong_shape_is_reported_not_defaulted() {
    let r = rag_query("h", "1").query_response(CallOutcome::Received("{\"response\":\"x\"}".to_string()));
    match r.unwrap_err() {
        HandlerError::ProcessFailed(m) => {
            assert!(m.starts_with("Failed to deserialize response into QueryResponse: "))
        }
        other => panic!("unexpected error {:?}", other),
    }
}

#[test]
fn answer_is_returned_as_it_came() {
    let body = "{\"response\":\"r\",\"references\":[{\"reference_id\":\"1\",\"file_path\":\"a.md\"},{\"reference_id\":\"1\",\"file_path\":\"a.md\"}]}";
    let r = rag_query("h", "1").query_response(CallOutcome::Received(body.to_string())).unwrap();
    assert_eq!(r.response, "r");
    assert_eq!(r.references.len(), 2);
    assert_eq!(r.references[1].reference_id, "1");
    assert_eq!(r.references[1].file_path, "a.md");
}
