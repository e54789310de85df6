use kodabi_lightrag_mcp::errors::external_error::ExternalCallError;
use kodabi_lightrag_mcp::errors::handler_error::HandlerError;
use kodabi_lightrag_mcp::models::central_query::CentralQuery;
use kodabi_lightrag_mcp::models::query::{
    ConversationHistory, ConversationHistoryRole, QueryMode, QueryRequest,
};
use kodabi_lightrag_mcp::models::rag_config::Rag;
use kodabi_lightrag_mcp::models::rag_mcp::LlmQueryRequest;
use serde_json::Value;

fn doc(text: &str) -> Value {
    serde_json::from_str::<Value>(text).unwrap()
}

#[test]
fn defaults_are_the_documented_ones() {
    let q = QueryRequest::new();
    assert_eq!(q.query, "");
    assert_eq!(q.mode, QueryMode::HYBRID);
    assert_eq!(q.response_type, "Multiple Paragraphs");
    assert_eq!(q.top_k, 40);
    assert_eq!(q.chunk_top_k, 20);
    assert_eq!(q.max_entity_tokens, 6000);
    assert_eq!(q.max_relation_tokens, 10000);
    assert_eq!(q.max_total_tokens, 30000);
    assert!(q.include_references);
    assert_eq!(q.only_need_context, None);
    assert_eq!(q.only_need_prompt, None);
    assert_eq!(q.conversation_history, None);
    assert_eq!(q.user_prompt, None);
    assert_eq!(q.enable_rerank, None);
    assert_eq!(q.stream, None);
}

#[test]
fn builders_set_one_field_each() {
    let turn = ConversationHistory { role: ConversationHistoryRole::USER, content: "hi".to_string() };
    let q = QueryRequest::new()
        .with_query("q".to_string())
        .with_mode(QueryMode::MIX)
        .with_response_type("Bullet Points".to_string())
        .with_top_k(1)
        .with_chunk_top_k(2)
        .with_max_entity_tokens(3)
        .with_max_relation_tokens(4)
        .with_max_total_tokens(5)
        .with_conversation_history(Some(vec![turn.clone()]))
        .with_user_prompt(Some("p".to_string()))
        .with_enable_rerank(Some(true))
        .with_stream(Some(false));
    assert_eq!(q.query, "q");
    assert_eq!(q.mode, QueryMode::MIX);
    assert_eq!(q.response_type, "Bullet Points");
    assert_eq!((q.top_k, q.chunk_top_k), (1, 2));
    assert_eq!((q.max_entity_tokens, q.max_relation_tokens, q.max_total_tokens), (3, 4, 5));
    assert_eq!(q.conversation_history, Some(vec![turn]));
    assert_eq!(q.user_prompt, Some("p".to_string()));
    assert_eq!(q.enable_rerank, Some(true));
    assert_eq!(q.stream, Some(false));
    assert!(q.include_references);
}

#[test]
fn default_request_survives_text_round_trip() {
    let q = QueryRequest::new();
    let text = serde_json::to_string(&q.to_json()).unwrap();
    let back = doc(&text);
    assert_eq!(QueryRequest::from_json(&back).unwrap(), q);
}

#[test]
fn full_request_survives_text_round_trip() {
    let q = QueryRequest::new()
        .with_query("why \"quoted\"?".to_string())
        .with_mode(QueryMode::BYPASS)
        .with_top_k(-7)
        .with_max_total_tokens(i32::MAX)
        .with_conversation_history(Some(vec![
            ConversationHistory { role: ConversationHistoryRole::USER, content: "a".to_string() },
            ConversationHistory { role: ConversationHistoryRole::ASSISTANT, content: "b".to_string() },
        ]))
        .with_user_prompt(Some("p".to_string()))
        .with_enable_rerank(Some(false))
        .with_stream(Some(true));
    let text = serde_json::to_string(&q.to_json()).unwrap();
    let back = doc(&text);
    assert_eq!(QueryRequest::from_json(&back).unwrap(), q);
}

#[test]
fn request_document_writes_unset_options_as_null() {
    let v = QueryRequest::new().with_query("x".to_string()).to_json();
    let expected = doc(r#"{"query":"x","mode":"hybrid","only_need_context":null,"only_need_prompt":null,
        "response_type":"Multiple Paragraphs","top_k":40,"chunk_top_k":20,"max_entity_tokens":6000,
        "max_relation_tokens":10000,"max_total_tokens":30000,"conversation_history":null,
        "user_prompt":null,"enable_rerank":null,"include_references":true,"stream":null}"#);
    assert_eq!(v, expected);
}

#[test]
fn shorthand_query_reads_as_default_object() {
    let short = CentralQuery::from_json(&doc(r#"{"rag_name":"svc","query":"hello"}"#)).unwrap();
    let full_text = r#"{"rag_name":"svc","query":{"query":"hello","mode":"hybrid","response_type":"Multiple Paragraphs",
        "top_k":40,"chunk_top_k":20,"max_entity_tokens":6000,"max_relation_tokens":10000,
        "max_total_tokens":30000,"include_references":true}}"#;
    let full = CentralQuery::from_json(&doc(full_text)).unwrap();
    assert_eq!(short.query, full.query);
    assert_eq!(short.query, QueryRequest::new().with_query("hello".to_string()));
    assert_eq!(short.rag_name, "svc");
}

#[test]
fn query_member_of_another_kind_is_refused() {
    assert!(CentralQuery::from_json(&doc(r#"{"rag_name":"svc","query":42}"#)).is_none());
    assert!(CentralQuery::from_json(&doc(r#"{"rag_name":"svc","query":["a"]}"#)).is_none());
    assert!(CentralQuery::from_json(&doc(r#"{"rag_name":"svc"}"#)).is_none());
    assert!(CentralQuery::from_json(&doc(r#"{"query":"x"}"#)).is_none());
}

#[test]
fn request_object_needs_every_required_member() {
    let base = r#"{"query":"q","mode":"local","response_type":"t","top_k":1,"chunk_top_k":1,
        "max_entity_tokens":1,"max_relation_tokens":1,"max_total_tokens":1,"include_references":false}"#;
    let q = QueryRequest::from_json(&doc(base)).unwrap();
    assert_eq!(q.mode, QueryMode::LOCAL);
    assert!(!q.include_references);
    let without_mode = base.replace("\"mode\":\"local\",", "");
    assert!(QueryRequest::from_json(&doc(&without_mode)).is_none());
    let unknown_mode = base.replace("local", "fast");
    assert!(QueryRequest::from_json(&doc(&unknown_mode)).is_none());
    let fractional = base.replace("\"top_k\":1", "\"top_k\":1.5");
    assert!(QueryRequest::from_json(&doc(&fractional)).is_none());
    let too_large = base.replace("\"top_k\":1", "\"top_k\":3000000000");
    assert!(QueryRequest::from_json(&doc(&too_large)).is_none());
    let bad_flag = base.replace("\"top_k\":1", "\"top_k\":1,\"stream\":\"yes\"");
    assert!(QueryRequest::from_json(&doc(&bad_flag)).is_none());
    let null_flag = base.replace("\"top_k\":1", "\"top_k\":1,\"stream\":null,\"extra\":[1]");
    assert_eq!(QueryRequest::from_json(&doc(&null_flag)).unwrap().stream, None);
    let bad_role = base.replace("\"top_k\":1", "\"top_k\":1,\"conversation_history\":[{\"role\":\"bot\",\"content\":\"c\"}]");
    assert!(QueryRequest::from_json(&doc(&bad_role)).is_none());
}

#[test]
fn mode_names() {
    assert_eq!(QueryMode::from_str("naive"), Ok(QueryMode::NAIVE));
    assert_eq!(QueryMode::from_str("Naive"), Err(()));
    assert_eq!(QueryMode::GLOBAL.to_string(), "global");
    for m in [QueryMode::LOCAL, QueryMode::GLOBAL, QueryMode::HYBRID, QueryMode::NAIVE, QueryMode::MIX, QueryMode::BYPASS] {
        assert_eq!(QueryMode::from_str(&m.to_string()), Ok(m));
    }
    assert_eq!(ConversationHistoryRole::from_str("assistant"), Ok(ConversationHistoryRole::ASSISTANT));
    assert_eq!(ConversationHistoryRole::USER.to_string(), "user");
    assert_eq!(ConversationHistoryRole::from_str(""), Err(()));
}

#[test]
fn llm_request_becomes_a_logical_query() {
    let turns = vec![ConversationHistory { role: ConversationHistoryRole::USER, content: "c".to_string() }];
    let req = LlmQueryRequest {
        rag_name: "svc".to_string(),
        query: "q".to_string(),
        mode: Some(QueryMode::NAIVE),
        user_prompt: Some("p".to_string()),
        history: Some(turns.clone()),
    };
    let c = CentralQuery::from_llm_query_request(&req).unwrap();
    assert_eq!(c.rag_name, "svc");
    let expected = QueryRequest::new()
        .with_query("q".to_string())
        .with_mode(QueryMode::NAIVE)
        .with_user_prompt(Some("p".to_string()))
        .with_conversation_history(Some(turns));
    assert_eq!(c.query, expected);
}

#[test]
fn llm_request_without_mode_keeps_the_default() {
    let v = doc(r#"{"rag_name":"svc","query":"q"}"#);
    let req = LlmQueryRequest::from_json(&v).unwrap();
    assert_eq!(req.mode, None);
    let c = CentralQuery::from_llm_query_request(&req).unwrap();
    assert_eq!(c.query, QueryRequest::new().with_query("q".to_string()));
    let with_mode = LlmQueryRequest::from_json(&doc(r#"{"rag_name":"s","query":"q","mode":"mix","history":null}"#)).unwrap();
    assert_eq!(with_mode.mode, Some(QueryMode::MIX));
    assert!(LlmQueryRequest::from_json(&doc(r#"{"rag_name":"s","query":"q","mode":"MIX"}"#)).is_none());
}

#[test]
fn backend_paths() {
    let r = Rag { rag_name: "svc".to_string(), rag_ip: "1.2.3.4".to_string(), rag_port: "80".to_string() };
    assert_eq!(r.get_full_path(), "1.2.3.4:80");
    assert_eq!(r.get_service_detail(), "svc: [1.2.3.4:80]");
}

#[test]
fn error_messages() {
    assert_eq!(HandlerError::ValidationFailed("a".to_string()).to_string(), "[HE]:Validation failed: a");
    assert_eq!(HandlerError::ReadFileFailed("a".to_string()).to_string(), "[HE]:Read file failed: a");
    assert_eq!(HandlerError::FileJsonParseFailed("a".to_string()).to_string(), "[HE]:Parse JSON file failed: a");
    assert_eq!(HandlerError::ProcessFailed("a".to_string()).to_string(), "[HE]:Process failed: a");
    assert_eq!(ExternalCallError::ValidationFailed("a".to_string()).to_string(), "ExternalCallError::ValidationFailed: a");
    assert_eq!(ExternalCallError::HealthFailed("a".to_string()).to_string(), "ExternalCallError::HealthFailed: a");
    assert_eq!(ExternalCallError::ResponseFailed("a".to_string()).to_string(), "ExternalCallError::ResponseFailed: a");
}
