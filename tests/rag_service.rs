use kodabi_lightrag_mcp::services::rag_service::internal_adder;

#[test]
fn internal() {
    let result = internal_adder(2, 2);
    assert_eq!(result, 4);
}
