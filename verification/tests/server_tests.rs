//! Transport modes, the server's serve plan, the command line and the
//! health report.

use agnes_mcp::cli::{apply_cli_overrides, config_command_check, load_config, ConfigArgs, ServeArgs};
use agnes_mcp::config::{AppConfig, EnvVars};
use agnes_mcp::json::to_json_text;
use agnes_mcp::server::transport::{HyperServerConfig, TransportMode};
use agnes_mcp::server::{AgnesServer, ServePlan};
use agnes_mcp::tools::health::{health_probe_body, health_report, verbose_json, HealthCheck, ProbeOutcome};

fn no_args() -> ServeArgs {
    ServeArgs {
        config: "config.toml".to_string(),
        base_url: None,
        api_key: vec![],
        mode: None,
        host: None,
        port: None,
        model_text: None,
        model_image: None,
        model_video: None,
        disable_tool: vec![],
    }
}

#[test]
fn transport_modes_parse_case_insensitively() {
    assert_eq!("HTTP".parse::<TransportMode>(), Ok(TransportMode::Http));
    assert_eq!(TransportMode::parse("Hybrid"), Ok(TransportMode::Hybrid));
    assert_eq!(TransportMode::parse("stdio"), Ok(TransportMode::Stdio));
    assert_eq!(TransportMode::parse("websocket"), Err("unknown transport mode: websocket".to_string()));
    for m in [TransportMode::Stdio, TransportMode::Http, TransportMode::Sse, TransportMode::Hybrid] {
        assert_eq!(TransportMode::parse(m.as_str()), Ok(m));
    }
}

#[test]
fn hyper_configs() {
    assert!(TransportMode::Stdio.to_hyper_config().is_none());
    let c = TransportMode::Sse.to_hyper_config().expect("sse");
    assert_eq!(c.protocol_name(), "SSE");
    assert!(c.sse_support());
    assert!(!HyperServerConfig::http().sse_support());
    assert_eq!(HyperServerConfig::hybrid().protocol_name(), "Hybrid");
    assert_eq!(
        HyperServerConfig::hybrid().started_message("0.0.0.0", 8080),
        "Agnes MCP Hybrid server started on 0.0.0.0:8080 (HTTP + SSE)"
    );
    assert_eq!(
        HyperServerConfig::sse().started_message("h", 1),
        "Agnes MCP SSE server started on h:1"
    );
}

#[test]
fn server_serve_plan() {
    let mut cfg = AppConfig::default();
    cfg.agnes.api_key = Some("sk".to_string());
    cfg.server.transport_mode = "Http".to_string();
    let server = AgnesServer::new(cfg).expect("server");
    match server.serve_plan() {
        Ok(ServePlan::Hyper(c)) => assert_eq!(c.protocol_name(), "HTTP"),
        _ => panic!("expected an HTTP plan"),
    }
    let mut cfg = AppConfig::default();
    cfg.agnes.api_key = Some("sk".to_string());
    cfg.server.transport_mode = "carrier-pigeon".to_string();
    let server = AgnesServer::new(cfg).expect("server");
    let e = server.serve_plan().err().expect("unknown mode");
    assert_eq!(e.message(), "configuration error: unknown transport mode: carrier-pigeon");
}

#[test]
fn cli_overrides_apply() {
    let mut cfg = AppConfig::default();
    let args = ServeArgs {
        base_url: Some("https://x.example.com//".to_string()),
        api_key: vec![String::new()],
        port: Some(9100),
        mode: Some("sse".to_string()),
        ..no_args()
    };
    apply_cli_overrides(&mut cfg, &args);
    assert_eq!(cfg.agnes.base_url, "https://x.example.com");
    assert!(cfg.agnes.api_key.is_none());
    assert!(cfg.agnes.api_keys.is_none());
    assert_eq!(cfg.server.port, 9100);
    assert_eq!(cfg.server.transport_mode, "sse");
}

#[test]
fn load_config_precedence() {
    let env = EnvVars {
        api_key: Some("sk-env".to_string()),
        transport: Some("http".to_string()),
        ..EnvVars::default()
    };
    let args = ServeArgs { mode: Some("hybrid".to_string()), ..no_args() };
    let cfg = load_config(None, &env, &args).expect("valid");
    assert_eq!(cfg.server.transport_mode, "hybrid");
    assert_eq!(cfg.agnes.api_key.as_deref(), Some("sk-env"));
    assert!(load_config(None, &EnvVars::default(), &no_args()).is_err());
    let mut file = AppConfig::default();
    file.agnes.api_key = Some("sk-file".to_string());
    file.server.host = "10.0.0.1".to_string();
    let cfg = load_config(Some(file), &EnvVars::default(), &no_args()).expect("valid");
    assert_eq!(cfg.server.host, "10.0.0.1");
}

#[test]
fn config_command_refuses_to_overwrite() {
    let args = ConfigArgs { output: "config.toml".to_string(), force: false };
    assert_eq!(
        config_command_check(&args, true),
        Err("file 'config.toml' already exists; use --force to overwrite".to_string())
    );
    assert!(config_command_check(&args, false).is_ok());
    let forced = ConfigArgs { force: true, ..args };
    assert!(config_command_check(&forced, true).is_ok());
}

#[test]
fn health_check_report() {
    assert_eq!(
        to_json_text(&health_probe_body("m")),
        "{\"model\":\"m\",\"messages\":[{\"role\":\"user\",\"content\":\"ping\"}],\"max_tokens\":1}"
    );
    let ok = HealthCheck::from_outcome(ProbeOutcome::Reachable, 42);
    assert_eq!(
        health_report(&ok, "2024-01-01T00:00:00Z", None),
        "Status: healthy\nTimestamp: 2024-01-01T00:00:00Z\n\nCheck Results:\n- agnes: healthy (42ms) - Agnes API reachable and authenticated\n"
    );
    let bad = HealthCheck::from_outcome(ProbeOutcome::TimedOut, 20000);
    assert_eq!(
        health_report(&bad, "T", Some("{}")),
        "Status: unhealthy\nTimestamp: T\n\nCheck Results:\n- agnes: unhealthy (20000ms) [Error: Agnes API check timed out (20s)]\n\n{}"
    );
    assert_eq!(
        to_json_text(&verbose_json(&bad, "T")),
        "{\"status\":\"unhealthy\",\"timestamp\":\"T\",\"checks\":[{\"name\":\"agnes\",\"status\":\"unhealthy\",\"duration_ms\":20000,\"message\":null,\"error\":\"Agnes API check timed out (20s)\"}]}"
    );
}

#[test]
fn server_details_announce_name_version_and_instructions() {
    let info = agnes_mcp::server::server_details("agnes-mcp");
    assert_eq!(info.name, "agnes-mcp");
    assert_eq!(info.version, "0.1.0");
    assert_eq!(info.title, "Agnes AI MCP Server");
    assert!(info.description.starts_with("MCP server for Agnes AI"));
    assert!(info.instructions.contains("agnes_video_status"));
}

#[test]
fn cli_disable_tool_merges_with_the_configured_list() {
    let mut cfg = AppConfig::default();
    cfg.agnes.disabled_tools = vec!["agnes_generate_video".to_string()];
    let mut args = no_args();
    args.disable_tool = vec![
        " agnes_video_status ".to_string(),
        String::new(),
        "agnes_generate_video".to_string(),
    ];
    apply_cli_overrides(&mut cfg, &args);
    assert_eq!(
        cfg.agnes.disabled_tools,
        vec!["agnes_generate_video".to_string(), "agnes_video_status".to_string()]
    );
    let before = cfg.agnes.disabled_tools.clone();
    apply_cli_overrides(&mut cfg, &no_args());
    assert_eq!(cfg.agnes.disabled_tools, before);
}

#[test]
fn cli_api_keys_merge_with_the_configured_keys() {
    let mut cfg = AppConfig::default();
    cfg.agnes.api_keys = Some(vec!["sk-1".to_string()]);
    cfg.agnes.api_key = Some("sk-file".to_string());
    let args = ServeArgs {
        api_key: vec!["sk-2".to_string(), " sk-1 ".to_string(), "sk-3".to_string()],
        ..no_args()
    };
    apply_cli_overrides(&mut cfg, &args);
    assert_eq!(
        cfg.agnes.api_keys,
        Some(vec!["sk-1".to_string(), "sk-2".to_string(), "sk-3".to_string()])
    );
    assert_eq!(cfg.agnes.api_key.as_deref(), Some("sk-file"));
    assert_eq!(
        cfg.agnes.effective_api_keys(),
        vec!["sk-1".to_string(), "sk-2".to_string(), "sk-3".to_string(), "sk-file".to_string()]
    );
}
