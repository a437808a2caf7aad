use rust_canvas_mcp::{CanvasConfig, CanvasError, CanvasServer};
use std::sync::Arc;

#[test]
fn test_server_creation() {
    let config = CanvasConfig::new(
        "test_token".to_string(),
        "https://test.instructure.com".to_string(),
    );

    let server = CanvasServer::new(config);
    assert!(server.is_ok());
}

#[test]
fn test_server_info() {
    let config = CanvasConfig::new(
        "test_token".to_string(),
        "https://test.instructure.com".to_string(),
    );

    let server = CanvasServer::new(config).unwrap();
    let info = server.get_info();

    assert_eq!(info.server_info.name, "rust-canvas-mcp");
    assert_eq!(info.server_info.version, "0.1.0");
}

#[test]
fn server_shares_its_configuration_with_its_client() {
    let mut config = CanvasConfig::new("t".to_string(), "https://x.edu".to_string());
    config.institution_name = Some("Test University".to_string());
    let server = CanvasServer::new(config).unwrap();
    assert_eq!(server.config.api_url, "https://x.edu/api/v1");
    assert_eq!(server.config.institution_name, Some("Test University".to_string()));
    assert!(Arc::ptr_eq(&server.config, server.client.config()));
    assert_eq!(server.client.base_url(), "https://x.edu/api/v1");
}

#[test]
fn server_is_not_made_for_a_token_that_no_header_can_hold() {
    let config = CanvasConfig::new("a\nb".to_string(), "https://x.edu".to_string());
    let error = match CanvasServer::new(config) {
        Ok(_) => panic!("a token with a line break was accepted"),
        Err(error) => error,
    };
    assert_eq!(
        error,
        CanvasError::Config("Invalid API token: failed to parse header value".to_string())
    );
}

#[test]
fn info_names_protocol_and_capabilities() {
    let config = CanvasConfig::new("t".to_string(), "https://x.edu".to_string());
    let info = CanvasServer::new(config).unwrap().get_info();
    assert_eq!(info.protocol_version, "2024-11-05");
    assert!(info.capabilities.tools);
    assert!(!info.capabilities.prompts);
    assert!(!info.capabilities.resources);
    assert!(!info.capabilities.logging);
}

#[test]
fn instructions_name_institution_and_url() {
    let mut config = CanvasConfig::new("t".to_string(), "https://x.edu".to_string());
    config.institution_name = Some("Test University".to_string());
    let info = CanvasServer::new(config).unwrap().get_info();
    assert_eq!(
        info.instructions,
        Some(
            "Canvas LMS MCP Server\n\
             Institution: Test University\n\
             API URL: https://x.edu/api/v1\n\
             \n\
             This server provides tools for interacting with Canvas LMS.\n\
             Core tools will be implemented in Phase 3."
                .to_string()
        )
    );
}

#[test]
fn instructions_say_where_no_institution_is_given() {
    let config = CanvasConfig::new("t".to_string(), "https://x.edu/".to_string());
    let info = CanvasServer::new(config).unwrap().get_info();
    assert_eq!(
        info.instructions.unwrap(),
        "Canvas LMS MCP Server\nInstitution: Not specified\nAPI URL: https://x.edu/api/v1\n\nThis server provides tools for interacting with Canvas LMS.\nCore tools will be implemented in Phase 3."
    );
}

#[test]
fn info_is_the_same_each_time() {
    let mut config = CanvasConfig::new("t".to_string(), "https://x.edu".to_string());
    config.institution_name = Some("Test University".to_string());
    let server = CanvasServer::new(config).unwrap();
    let first = server.get_info();
    let second = server.get_info();
    assert_eq!(first, second);
    assert_eq!(server.clone().get_info(), first);
}

#[test]
fn info_does_not_depend_on_the_token() {
    let one = CanvasServer::new(CanvasConfig::new("one".to_string(), "https://x.edu".to_string()))
        .unwrap();
    let two = CanvasServer::new(CanvasConfig::new("two".to_string(), "https://x.edu".to_string()))
        .unwrap();
    assert_eq!(one.get_info(), two.get_info());
}
