//! Integration-level unit tests for the agnes-mcp crate.

use agnes_mcp::config::AppConfig;
use agnes_mcp::tools::{create_default_registry, is_tool_name, AVAILABLE_TOOLS};

#[test]
fn default_config_has_agnes_models() {
    let cfg = AppConfig::default();
    assert_eq!(cfg.agnes.base_url, "https://apihub.agnes-ai.com");
    assert!(cfg.agnes.api_key.is_none());
    assert_eq!(cfg.server.transport_mode, "stdio");
}

#[test]
fn validate_requires_key() {
    let mut cfg = AppConfig::default();
    assert!(cfg.validate().is_err());
    cfg.agnes.api_key = Some("sk-x".to_string());
    assert!(cfg.validate().is_ok());
}

#[test]
fn user_agent_contains_name_and_version() {
    let ua = agnes_mcp::user_agent();
    assert!(ua.starts_with("AgnesMCP/"));
}

#[test]
fn user_agent_is_name_slash_version() {
    assert_eq!(agnes_mcp::user_agent(), format!("AgnesMCP/{}", agnes_mcp::VERSION));
}

#[test]
fn default_disabled_tools_is_empty() {
    let cfg = AppConfig::default();
    assert!(cfg.agnes.disabled_tools.is_empty());
}

#[test]
fn registry_skips_disabled_tools() {
    let mut cfg = AppConfig::default();
    cfg.agnes.api_key = Some("sk-test".to_string());

    // Default: every built-in tool registered.
    let (_client, registry) = create_default_registry(&cfg.agnes).expect("registry");
    assert_eq!(registry.len(), AVAILABLE_TOOLS.len());

    // Disable two tools.
    cfg.agnes.disabled_tools = vec![
        "agnes_generate_video".to_string(),
        "agnes_video_status".to_string(),
    ];
    let (_client, registry) = create_default_registry(&cfg.agnes).expect("registry");
    assert_eq!(registry.len(), AVAILABLE_TOOLS.len() - 2);

    let names: Vec<String> = registry.tool_names();
    assert!(names.contains(&"agnes_image_recognition".to_string()));
    assert!(names.contains(&"agnes_generate_image".to_string()));
    assert!(!names.contains(&"agnes_generate_video".to_string()));
    assert!(!names.contains(&"agnes_video_status".to_string()));
}

#[test]
fn registry_ignores_unknown_disabled_names() {
    let mut cfg = AppConfig::default();
    cfg.agnes.api_key = Some("sk-test".to_string());
    cfg.agnes.disabled_tools = vec!["agnes_unknown".to_string(), "  ".to_string()];
    let (_client, registry) = create_default_registry(&cfg.agnes).expect("registry");
    // Unknown names ignored; whitespace-only entries dropped.
    assert_eq!(registry.len(), AVAILABLE_TOOLS.len());
}

#[test]
fn registry_trims_disabled_names_and_keeps_order() {
    let mut cfg = AppConfig::default();
    cfg.agnes.api_key = Some("sk-test".to_string());
    cfg.agnes.disabled_tools = vec![
        " agnes_generate_image ".to_string(),
        "agnes_generate_image".to_string(),
        "AGNES_VIDEO_STATUS".to_string(),
    ];
    let (_client, registry) = create_default_registry(&cfg.agnes).expect("registry");
    assert_eq!(
        registry.tool_names(),
        vec![
            "agnes_image_recognition".to_string(),
            "agnes_generate_video".to_string(),
            "agnes_video_status".to_string(),
        ]
    );
}

#[test]
fn registry_needs_an_api_key() {
    let cfg = AppConfig::default();
    let err = create_default_registry(&cfg.agnes).err().expect("no key");
    assert!(matches!(err, agnes_mcp::Error::Config(_)));
}

#[test]
fn is_tool_name_knows_the_builtin_tools() {
    assert!(is_tool_name("agnes_generate_image"));
    assert!(!is_tool_name("agnes_unknown"));
    assert!(!is_tool_name("Agnes_Generate_Image"));
}

#[test]
fn log_filter_keeps_known_levels_and_defaults_to_info() {
    assert_eq!(agnes_mcp::log_filter("debug"), "debug");
    assert_eq!(agnes_mcp::log_filter("WARN"), "WARN");
    assert_eq!(agnes_mcp::log_filter("verbose"), "info");
    assert_eq!(agnes_mcp::log_filter(""), "info");
}
