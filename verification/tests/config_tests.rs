//! Configuration: defaults, validation, the key pool and environment overrides.

use agnes_mcp::config::{
    AgnesConfig, AppConfig, EnvVars, DEFAULT_AGNES_BASE_URL, MODEL_IMAGE, MODEL_TEXT, MODEL_VIDEO,
};

#[test]
fn validate_requires_api_key() {
    let mut cfg = AppConfig::default();
    assert!(cfg.validate().is_err());
    cfg.agnes.api_key = Some("sk-test".to_string());
    assert!(cfg.validate().is_ok());
}

#[test]
fn validate_rejects_bad_base_url() {
    let mut cfg = AppConfig::default();
    cfg.agnes.api_key = Some("sk-test".to_string());
    cfg.agnes.base_url = "ftp://bad".to_string();
    assert!(cfg.validate().is_err());
}

#[test]
fn validate_error_messages() {
    let mut cfg = AppConfig::default();
    let e = cfg.validate().unwrap_err();
    assert!(matches!(e, agnes_mcp::Error::Config(_)));
    cfg.agnes.api_key = Some("sk-test".to_string());
    cfg.agnes.base_url = "ftp://bad".to_string();
    match cfg.validate().unwrap_err() {
        agnes_mcp::Error::Config(m) => {
            assert_eq!(m, "agnes.base_url must start with http:// or https://, got: ftp://bad")
        }
        other => panic!("unexpected error {other:?}"),
    }
}

#[test]
fn env_overrides() {
    let env = EnvVars {
        api_key: Some("sk-env".to_string()),
        base_url: Some("https://env.example.com/".to_string()),
        ..EnvVars::default()
    };
    let mut cfg = AppConfig::default();
    cfg.apply_env(&env);
    assert_eq!(cfg.agnes.api_key.as_deref(), Some("sk-env"));
    assert_eq!(cfg.agnes.base_url, "https://env.example.com");
}

#[test]
fn default_models_match_constants() {
    let cfg = AgnesConfig::default();
    assert_eq!(cfg.model_text, MODEL_TEXT);
    assert_eq!(cfg.model_image, MODEL_IMAGE);
    assert_eq!(cfg.model_video, MODEL_VIDEO);
}

#[test]
fn default_base_url_matches_constant() {
    let cfg = AgnesConfig::default();
    assert_eq!(cfg.base_url, DEFAULT_AGNES_BASE_URL);
}

#[test]
fn env_overrides_models() {
    let env = EnvVars {
        model_text: Some("env-text".to_string()),
        model_image: Some("env-image".to_string()),
        model_video: Some("env-video".to_string()),
        ..EnvVars::default()
    };
    let mut cfg = AppConfig::default();
    cfg.apply_env(&env);
    assert_eq!(cfg.agnes.model_text, "env-text");
    assert_eq!(cfg.agnes.model_image, "env-image");
    assert_eq!(cfg.agnes.model_video, "env-video");
}

#[test]
fn effective_api_keys_single() {
    let cfg = AgnesConfig {
        api_key: Some("sk-1".to_string()),
        ..AgnesConfig::default()
    };
    assert_eq!(cfg.effective_api_keys(), vec!["sk-1".to_string()]);
}

#[test]
fn effective_api_keys_comma_separated() {
    let cfg = AgnesConfig {
        api_key: Some("sk-1, sk-2 , sk-3".to_string()),
        ..AgnesConfig::default()
    };
    assert_eq!(
        cfg.effective_api_keys(),
        vec!["sk-1".to_string(), "sk-2".to_string(), "sk-3".to_string()]
    );
}

#[test]
fn effective_api_keys_dedup_preserves_order() {
    let cfg = AgnesConfig {
        api_keys: Some(vec!["sk-1".to_string(), "sk-2".to_string()]),
        api_key: Some("sk-2, sk-3".to_string()),
        ..AgnesConfig::default()
    };
    assert_eq!(
        cfg.effective_api_keys(),
        vec!["sk-1".to_string(), "sk-2".to_string(), "sk-3".to_string()]
    );
}

#[test]
fn effective_api_keys_filters_empty() {
    let cfg = AgnesConfig {
        api_keys: Some(vec![
            "sk-1".to_string(),
            String::new(),
            "  ".to_string(),
            "sk-2".to_string(),
        ]),
        ..AgnesConfig::default()
    };
    assert_eq!(
        cfg.effective_api_keys(),
        vec!["sk-1".to_string(), "sk-2".to_string()]
    );
}

#[test]
fn effective_api_keys_empty_when_unconfigured() {
    let cfg = AgnesConfig::default();
    assert!(cfg.effective_api_keys().is_empty());
}

#[test]
fn require_api_keys_errors_when_empty() {
    let cfg = AgnesConfig::default();
    assert!(cfg.require_api_keys().is_err());
}

#[test]
fn require_api_keys_ok_with_pool() {
    let cfg = AgnesConfig {
        api_keys: Some(vec!["sk-1".to_string(), "sk-2".to_string()]),
        ..AgnesConfig::default()
    };
    assert_eq!(cfg.require_api_keys().unwrap().len(), 2);
}

#[test]
fn validate_accepts_api_keys() {
    let mut cfg = AppConfig::default();
    cfg.agnes.api_keys = Some(vec!["sk-1".to_string(), "sk-2".to_string()]);
    assert!(cfg.validate().is_ok());
}

#[test]
fn env_multi_keys_overrides() {
    let env = EnvVars {
        api_keys: Some("sk-a, sk-b , sk-c".to_string()),
        ..EnvVars::default()
    };
    let mut cfg = AppConfig::default();
    cfg.apply_env(&env);
    let expected: Vec<String> = ["sk-a", "sk-b", "sk-c"]
        .iter()
        .map(|s| (*s).to_string())
        .collect();
    assert_eq!(cfg.agnes.api_keys, Some(expected));
}

#[test]
fn default_cooldowns_match_constants() {
    let cfg = AgnesConfig::default();
    assert_eq!(cfg.key_cooldown_secs, 600);
    assert_eq!(cfg.key_rate_limit_cooldown_secs, 60);
}

#[test]
fn env_overrides_cooldowns() {
    let env = EnvVars {
        key_cooldown_secs: Some("999".to_string()),
        key_rate_limit_cooldown_secs: Some("111".to_string()),
        ..EnvVars::default()
    };
    let mut cfg = AppConfig::default();
    cfg.apply_env(&env);
    assert_eq!(cfg.agnes.key_cooldown_secs, 999);
    assert_eq!(cfg.agnes.key_rate_limit_cooldown_secs, 111);
}

#[test]
fn env_ignores_numbers_that_do_not_parse() {
    let env = EnvVars {
        port: Some("70000".to_string()),
        key_cooldown_secs: Some("soon".to_string()),
        ..EnvVars::default()
    };
    let mut cfg = AppConfig::default();
    cfg.apply_env(&env);
    assert_eq!(cfg.server.port, AppConfig::default().server.port);
    assert_eq!(cfg.agnes.key_cooldown_secs, 600);
}

#[test]
fn env_token_used_when_api_key_unset() {
    let env = EnvVars {
        token: Some("sk-token".to_string()),
        ..EnvVars::default()
    };
    let mut cfg = AppConfig::default();
    cfg.apply_env(&env);
    assert_eq!(cfg.agnes.api_key.as_deref(), Some("sk-token"));
}

#[test]
fn default_disabled_tools_empty() {
    let cfg = AgnesConfig::default();
    assert!(cfg.disabled_tools.is_empty());
}

#[test]
fn env_overrides_disabled_tools() {
    let env = EnvVars {
        disabled_tools: Some("agnes_generate_image, agnes_video_status".to_string()),
        ..EnvVars::default()
    };
    let mut cfg = AppConfig::default();
    cfg.apply_env(&env);
    assert_eq!(
        cfg.agnes.disabled_tools,
        vec![
            "agnes_generate_image".to_string(),
            "agnes_video_status".to_string()
        ]
    );
}

#[test]
fn env_disabled_tools_empty_string_keeps_default() {
    let env = EnvVars {
        disabled_tools: Some(String::new()),
        ..EnvVars::default()
    };
    let mut cfg = AppConfig::default();
    cfg.apply_env(&env);
    assert!(cfg.agnes.disabled_tools.is_empty());
}

#[test]
fn env_disabled_tools_filters_empty_entries() {
    let env = EnvVars {
        disabled_tools: Some("agnes_generate_image, ,  ,agnes_video_status".to_string()),
        ..EnvVars::default()
    };
    let mut cfg = AppConfig::default();
    cfg.apply_env(&env);
    assert_eq!(
        cfg.agnes.disabled_tools,
        vec![
            "agnes_generate_image".to_string(),
            "agnes_video_status".to_string()
        ]
    );
}

#[test]
fn env_disabled_tools_merge_with_the_file_list() {
    let env = EnvVars {
        disabled_tools: Some("agnes_video_status, agnes_generate_video".to_string()),
        ..EnvVars::default()
    };
    let mut cfg = AppConfig::default();
    cfg.agnes.disabled_tools = vec!["agnes_generate_video".to_string()];
    cfg.apply_env(&env);
    assert_eq!(
        cfg.agnes.disabled_tools,
        vec!["agnes_generate_video".to_string(), "agnes_video_status".to_string()]
    );
}

#[test]
fn env_api_keys_merge_with_the_file_keys() {
    let env = EnvVars { api_keys: Some("sk-b, sk-a".to_string()), ..EnvVars::default() };
    let mut cfg = AppConfig::default();
    cfg.agnes.api_keys = Some(vec!["sk-a".to_string()]);
    cfg.apply_env(&env);
    assert_eq!(cfg.agnes.api_keys, Some(vec!["sk-a".to_string(), "sk-b".to_string()]));
}
