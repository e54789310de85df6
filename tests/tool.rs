use kodabi_lightrag_mcp::models::outbound::CallOutcome;
use kodabi_lightrag_mcp::models::query::QueryRequest;
use kodabi_lightrag_mcp::models::rag_mcp::LlmQueryRequest;
use kodabi_lightrag_mcp::services::mcp_service::{
    ask_to_software_engineer, ask_to_software_engineer_response, software_engineering_services,
};

fn tool_request(name: &str) -> LlmQueryRequest {
    LlmQueryRequest {
        rag_name: name.to_string(),
        query: "ping".to_string(),
        mode: None,
        user_prompt: None,
        history: None,
    }
}

#[test]
fn tool_registry_holds_one_backend() {
    let services = software_engineering_services();
    assert_eq!(services.services.len(), 1);
    assert_eq!(services.services[0].get_service_detail(), "software engineering: [host.docker.internal:9621]");
}

#[test]
fn tool_request_goes_to_its_backend() {
    let request = ask_to_software_engineer(&tool_request("software engineering")).unwrap();
    assert_eq!(request.url, "http://host.docker.internal:9621/query");
    let sent = QueryRequest::from_json(&request.body).unwrap();
    assert_eq!(sent, QueryRequest::new().with_query("ping".to_string()));
}

#[test]
fn tool_request_for_another_backend_is_an_error() {
    let m = ask_to_software_engineer(&tool_request("other")).unwrap_err();
    assert_eq!(m, "[SE]:Not found: \"Service not found: other\"");
    let m = ask_to_software_engineer(&tool_request("")).unwrap_err();
    assert_eq!(m, "[SE]:Validation failed: \"Rag service is empty: \"");
}

#[test]
fn unreachable_backend_gives_a_tool_error_with_the_transport_message() {
    let m = ask_to_software_engineer_response(CallOutcome::SendFailed("error sending request: connection refused".to_string()))
        .unwrap_err();
    assert!(m.starts_with("[SE]:Query failed: "));
    assert!(m.contains("Query request failed: error sending request: connection refused"));
}

#[test]
fn tool_answer_is_the_response_text() {
    let text = ask_to_software_engineer_response(CallOutcome::Received(
        r#"{"response":"pong","references":[{"reference_id":"1","file_path":"f"}]}"#.to_string(),
    ))
    .unwrap();
    assert_eq!(text, "pong");
}
