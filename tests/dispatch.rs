use kodabi_lightrag_mcp::errors::service_error::ServiceError;
use kodabi_lightrag_mcp::models::central_query::CentralQuery;
use kodabi_lightrag_mcp::models::outbound::CallOutcome;
use kodabi_lightrag_mcp::models::query::QueryRequest;
use kodabi_lightrag_mcp::models::rag_config::{Rag, RagServices};
use kodabi_lightrag_mcp::traits::config_api::ServiceConfigurationHandler;
use kodabi_lightrag_mcp::traits::service_api::ServiceApiHandler;

fn rag(name: &str, ip: &str, port: &str) -> Rag {
    Rag { rag_name: name.to_string(), rag_ip: ip.to_string(), rag_port: port.to_string() }
}

fn registry(entries: Vec<Rag>) -> RagServices {
    RagServices { services: entries }
}

fn query_to(name: &str) -> CentralQuery {
    CentralQuery {
        rag_name: name.to_string(),
        query: QueryRequest::new().with_query("ping".to_string()),
    }
}

#[test]
fn empty_name_is_a_validation_error() {
    let services = registry(vec![rag("svc", "1.2.3.4", "80")]);
    let r = query_to("").central_query(&services);
    assert_eq!(r.unwrap_err(), ServiceError::ValidationFailed("Rag service is empty: ".to_string()));
}

#[test]
fn unknown_name_is_not_found() {
    let services = registry(vec![rag("svc", "1.2.3.4", "80")]);
    let r = query_to("other").central_query(&services);
    assert_eq!(r.unwrap_err(), ServiceError::NotFound("Service not found: other".to_string()));
}

#[test]
fn empty_registry_finds_nothing() {
    let r = query_to("svc").central_query(&registry(vec![]));
    assert!(matches!(r, Err(ServiceError::NotFound(_))));
}

#[test]
fn backend_without_host_is_a_validation_error() {
    let services = registry(vec![rag("svc", "", "80")]);
    let r = query_to("svc").central_query(&services);
    assert_eq!(
        r.unwrap_err(),
        ServiceError::ValidationFailed(
            "[HE]:Validation failed: Check service information svc=:80".to_string()
        )
    );
}

#[test]
fn backend_without_port_is_a_validation_error() {
    let services = registry(vec![rag("svc", "1.2.3.4", "")]);
    let r = query_to("svc").central_query(&services);
    assert!(matches!(r, Err(ServiceError::ValidationFailed(_))));
}

#[test]
fn later_duplicate_is_shadowed() {
    let services = registry(vec![rag("svc", "1.1.1.1", "1"), rag("svc", "2.2.2.2", "2")]);
    let request = query_to("svc").central_query(&services).unwrap();
    assert_eq!(request.url, "http://1.1.1.1:1/query");
}

#[test]
fn registry_lookup_finds_the_entry_by_name() {
    let text = r#"{"services":[{"rag_name":"svc","rag_ip":"1.2.3.4","rag_port":"80"}]}"#;
    let services = RagServices::init("rag_config.json", Ok(text.to_string())).unwrap();
    let found = services.get_service_by_name("svc").unwrap();
    assert_eq!(found, rag("svc", "1.2.3.4", "80"));
    assert!(services.get_service_by_name("missing").is_none());
}

#[test]
fn echo_backend_answer_comes_back_unchanged() {
    let text = r#"{"services":[{"rag_name":"svc","rag_ip":"1.2.3.4","rag_port":"80"}]}"#;
    let services = RagServices::init("rag_config.json", Ok(text.to_string())).unwrap();
    let payload = serde_json::from_str::<serde_json::Value>(r#"{"rag_name":"svc","query":"ping"}"#).unwrap();
    let query = CentralQuery::from_json(&payload).unwrap();
    let request = query.central_query(&services).unwrap();
    assert_eq!(request.url, "http://1.2.3.4:80/query");
    let sent = QueryRequest::from_json(&request.body).unwrap();
    assert_eq!(sent, QueryRequest::new().with_query("ping".to_string()));
    let answer = query
        .central_query_response(CallOutcome::Received(r#"{"response":"pong","references":[]}"#.to_string()))
        .unwrap();
    assert_eq!(answer.response, "pong");
    assert!(answer.references.is_empty());
}

#[test]
fn transport_failure_is_a_query_failure_with_the_detail() {
    let r = query_to("svc").central_query_response(CallOutcome::SendFailed("connection refused".to_string()));
    assert_eq!(
        r.unwrap_err(),
        ServiceError::QueryFailed("[HE]:Process failed: Query request failed: connection refused".to_string())
    );
}

#[test]
fn malformed_reply_is_a_query_failure() {
    let r = query_to("svc").central_query_response(CallOutcome::Received("[1,2]".to_string()));
    match r.unwrap_err() {
        ServiceError::QueryFailed(m) => assert!(m.starts_with("[HE]:Process failed: Failed to deserialize response into QueryResponse: ")),
        other => panic!("unexpected error {:?}", other),
    }
}

#[test]
fn service_error_messages_quote_the_detail() {
    assert_eq!(ServiceError::NotFound("a \"b\"".to_string()).to_string(), "[SE]:Not found: \"a \\\"b\\\"\"");
    assert_eq!(ServiceError::ValidationFailed("x".to_string()).to_string(), "[SE]:Validation failed: \"x\"");
    assert_eq!(ServiceError::QueryFailed("x".to_string()).to_string(), "[SE]:Query failed: \"x\"");
    assert_eq!(ServiceError::McpError("x".to_string()).to_string(), "[SE]:MCP error: \"x\"");
}
