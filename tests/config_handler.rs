use kodabi_lightrag_mcp::errors::handler_error::HandlerError;
use kodabi_lightrag_mcp::models::rag_config::RagServices;
use kodabi_lightrag_mcp::traits::config_api::ServiceConfigurationHandler;

const MOCK_PATH: &str = "test_rag_config.json";

fn load(text: &str) -> Result<RagServices, HandlerError> {
    RagServices::init(MOCK_PATH, Ok(text.to_string()))
}

#[test]
fn test_init_valid_json() {
    let valid_json = r#"
        {
            "services": [
                {
                    "rag_name": "RagService1",
                    "rag_ip": "192.168.1.10",
                    "rag_port": "8080"
                },
                {
                    "rag_name": "RagService2",
                    "rag_ip": "192.168.1.11",
                    "rag_port": "8081"
                }
            ]
        }
        "#;
    let result = load(valid_json);
    assert!(result.is_ok());
    let services: RagServices = result.unwrap();
    assert_eq!(services.services.len(), 2);
    assert_eq!(services.services[0].rag_name, "RagService1");
    assert_eq!(services.services[0].rag_ip, "192.168.1.10");
    assert_eq!(services.services[0].rag_port, "8080");
}

#[test]
fn test_init_invalid_json() {
    let invalid_json = r#"
        {
             {
                "rag_name": "RagService1",
                "rag_ip": "192.168.1.10",
                "rag_port": "8080"
            }
        }"#;
    let result = load(invalid_json);
    assert!(result.is_err());
    if let Err(e) = result {
        assert!(e.to_string().contains("Parse JSON file failed"));
    }
}

#[test]
fn test_init_empty_json() {
    let result = load("{}");
    assert!(result.is_err());
    if let Err(e) = result {
        assert!(e.to_string().contains("Parse JSON file failed"));
    }
}

#[test]
fn test_init_missing_services_array() {
    let invalid_structure = r#"
        {
            "rag_name": "RagService1",
            "rag_ip": "192.168.1.10",
            "rag_port": "8080"
        }
        "#;
    let result = load(invalid_structure);
    assert!(result.is_err());
    if let Err(e) = result {
        assert!(e.to_string().contains("Parse JSON file failed"));
    }
}

#[test]
fn test_init_malformed_field_names() {
    let malformed_json = r#"
        {
            "services": [
                {
                    rag_name: "RagService1",
                    rag_ip: "192.168.1.10",
                    rag_port: "8080"
                }
            ]
        }
        "#;
    let result = load(malformed_json);
    assert!(result.is_err());
    if let Err(e) = result {
        assert!(e.to_string().contains("Parse JSON file failed"));
    }
}

#[test]
fn unreadable_file_is_a_read_error_naming_the_path() {
    let result = RagServices::init("missing.json", Err("No such file or directory".to_string()));
    assert_eq!(
        result.unwrap_err(),
        HandlerError::ReadFileFailed("path: missing.json, error: No such file or directory".to_string())
    );
}

#[test]
fn one_bad_entry_rejects_the_whole_registry() {
    let text = r#"{"services":[{"rag_name":"a","rag_ip":"1","rag_port":"2"},{"rag_name":"b","rag_ip":"1"}]}"#;
    match load(text).unwrap_err() {
        HandlerError::FileJsonParseFailed(m) => assert!(m.starts_with("path: test_rag_config.json, error: ")),
        other => panic!("unexpected error {:?}", other),
    }
}

#[test]
fn syntax_error_names_the_path() {
    match load("not json").unwrap_err() {
        HandlerError::FileJsonParseFailed(m) => assert!(m.starts_with("path: test_rag_config.json, error: ")),
        other => panic!("unexpected error {:?}", other),
    }
}

#[test]
fn empty_services_list_is_an_empty_registry() {
    let services = load(r#"{"services":[],"comment":"none yet"}"#).unwrap();
    assert!(services.services.is_empty());
}
