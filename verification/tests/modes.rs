use mcp_proxy::client_config::McpClientConfig;
use mcp_proxy::command_mode::{command_banner, started_lines};
use mcp_proxy::convert::{
    choose_protocol, detected_notice, mode_failure, source_notice, url_banner, url_mode,
    ProtocolSource, ProxyProtocol, UrlMode,
};
use mcp_proxy::launch::spawn_plan;
use mcp_proxy::model::McpProtocol;
use mcp_proxy::program::{
    client_log_level, is_client, listen_address, listening_lines, override_lines, panic_line,
    panic_lines, server_lines, startup_lines, CliCommand, Overrides, PanicPlace, ServerSettings,
};
use mcp_proxy::stream_client::stream_connection_plan;
use mcp_proxy::stream_server::{
    server_failure, service_filter, service_spawn_plan, service_started_lines, serving_notice,
    McpServiceConfig, STREAM_SERVER_STATEFUL,
};
use mcp_proxy::table::Table;
use mcp_proxy::time::Duration;
use mcp_proxy::tools::{ToolFilter, ToolInfo};

fn table(entries: &[(&str, &str)]) -> Table<String> {
    let mut t: Table<String> = Table::new();
    for (k, v) in entries {
        t = t.with(k.to_string(), v.to_string());
    }
    t
}

fn settings() -> ServerSettings {
    ServerSettings {
        port: 8085,
        log_path: "./logs".into(),
        log_level: "info".into(),
        retain_days: 5,
    }
}

#[test]
fn command_line_protocol_goes_first() {
    assert_eq!(
        choose_protocol(Some(ProxyProtocol::Sse), Some(McpProtocol::Stream)),
        ProtocolSource::CommandLine(McpProtocol::Sse)
    );
    assert_eq!(
        choose_protocol(Some(ProxyProtocol::Stream), None),
        ProtocolSource::CommandLine(McpProtocol::Stream)
    );
    assert_eq!(
        choose_protocol(None, Some(McpProtocol::Stdio)),
        ProtocolSource::Config(McpProtocol::Stdio)
    );
    assert_eq!(choose_protocol(None, None), ProtocolSource::Detect);
}

#[test]
fn protocol_is_announced() {
    let cli = ProtocolSource::CommandLine(McpProtocol::Sse);
    assert_eq!(
        source_notice(cli, "SSE", false).as_deref(),
        Some("🔧 Using protocol from CLI: SSE")
    );
    assert_eq!(
        source_notice(ProtocolSource::Config(McpProtocol::Sse), "SSE", false).as_deref(),
        Some("🔧 Using protocol from config: SSE")
    );
    assert_eq!(
        source_notice(ProtocolSource::Detect, "", false).as_deref(),
        Some("🔍 Detecting protocol...")
    );
    assert_eq!(source_notice(cli, "SSE", true), None);
    assert_eq!(
        detected_notice("SSE", false).as_deref(),
        Some("🔍 Detected protocol: SSE")
    );
    assert_eq!(detected_notice("SSE", true), None);
    assert_eq!(
        url_banner("http://h", &table(&[]), false).as_deref(),
        Some("🚀 MCP-Stdio-Proxy: http://h → stdio")
    );
    assert_eq!(url_banner("http://h", &table(&[]), true), None);
    assert_eq!(url_banner("http://h", &table(&[("a", "b")]), false), None);
}

#[test]
fn url_needs_a_network_protocol() {
    let headers = table(&[("Authorization", "abc")]);
    let auth = "given".to_string();
    let mode = url_mode(McpProtocol::Sse, "http://h", &headers, Some(&auth)).unwrap();
    assert_eq!(mode_failure(&mode, "e"), "❌ SSE mode failed: e");
    match mode {
        UrlMode::Sse(config) => {
            assert_eq!(config.url, "http://h");
            assert_eq!(config.headers.get("Authorization").unwrap(), "given");
        }
        UrlMode::Stream(_) => panic!("wrong mode"),
    }
    let mode = url_mode(McpProtocol::Stream, "http://h", &headers, None).unwrap();
    assert_eq!(mode_failure(&mode, "e"), "❌ Stream mode failed: e");
    assert_eq!(
        url_mode(McpProtocol::Stdio, "http://h", &headers, None).unwrap_err(),
        "Stdio protocol does not support URL conversion, please use --config for local commands"
    );
}

#[test]
fn command_is_announced() {
    let plan = spawn_plan(
        "npx",
        &Some(vec!["-y".into(), "srv".into()]),
        &Some(table(&[("A", "1"), ("B", "2")])),
    );
    let filter = ToolFilter {
        allow_tools: Some(vec![]),
        deny_tools: None,
    };
    assert_eq!(
        command_banner("svc", &plan, &filter, false),
        vec![
            "🚀 MCP-Stdio-Proxy: svc (command) → stdio".to_string(),
            "   Command: npx [\"-y\", \"srv\"]".to_string(),
            "   Env vars: {\"A\": \"1\", \"B\": \"2\"}".to_string(),
            "🔧 Tool filtering enabled".to_string(),
        ]
    );
    assert!(command_banner("svc", &plan, &filter, true).is_empty());
    let bare = spawn_plan("ls", &None, &None);
    assert_eq!(
        command_banner("svc", &bare, &ToolFilter::default(), false),
        vec![
            "🚀 MCP-Stdio-Proxy: svc (command) → stdio".to_string(),
            "   Command: ls []".to_string(),
        ]
    );
    assert_eq!(
        started_lines(&Err("e".into())),
        vec![
            "✅ Child process started, proxying to stdio...".to_string(),
            "⚠️  Failed to list tools: e".to_string(),
            "💡 You can now send JSON-RPC requests through stdin".to_string(),
        ]
    );
}

#[test]
fn stream_server_is_announced() {
    let config = McpServiceConfig {
        name: "svc".into(),
        command: "npx".into(),
        args: None,
        env: None,
        tool_filter: None,
    };
    assert_eq!(service_spawn_plan(&config).command, "npx");
    assert!(!service_filter(config.clone()).is_enabled());
    let filtered = McpServiceConfig {
        tool_filter: Some(ToolFilter {
            allow_tools: None,
            deny_tools: Some(vec!["x".into()]),
        }),
        ..config
    };
    assert!(!service_filter(filtered).is_allowed("x"));
    let tools: Result<Vec<ToolInfo>, String> = Ok(vec![]);
    assert_eq!(
        service_started_lines(&tools, false),
        vec![
            "✅ The child process has been started".to_string(),
            "⚠️Tool list is empty".to_string(),
        ]
    );
    assert!(service_started_lines(&tools, true).is_empty());
    assert_eq!(
        service_started_lines(&Err("e".into()), false)[1],
        "⚠️ Failed to obtain tool list: e"
    );
    let lines = serving_notice(&Some("127.0.0.1:80".into()), false);
    assert_eq!(lines.len(), 5);
    assert_eq!(
        lines[0],
        "📡 Streamable HTTP service startup: http://127.0.0.1:80"
    );
    assert_eq!(
        serving_notice(&None, false)[1],
        "💡 MCP client can be used directly: http://<unknown>"
    );
    assert!(serving_notice(&None, true).is_empty());
    assert_eq!(server_failure("e"), "服务器错误: e");
    assert!(STREAM_SERVER_STATEFUL);
}

#[test]
fn stream_connection_retries_up_to_a_minute() {
    let config = McpClientConfig::new("http://h").with_header("K", "v");
    let plan = stream_connection_plan(&config, "9").unwrap();
    assert_eq!(plan.url, "http://h");
    assert_eq!(plan.http.headers.get("k").unwrap(), "v");
    assert_eq!(plan.retry.retry(3), Some(Duration::from_secs(8)));
    assert_eq!(plan.retry.retry(400), Some(Duration::from_secs(60)));
    assert_eq!(plan.client_info.name, Some("mcp-streamable-proxy-client"));
    assert_eq!(plan.client_info.protocol_version, None);
    let bad = McpClientConfig::new("http://h").with_header("K", "\r");
    assert!(stream_connection_plan(&bad, "9").is_err());
}

#[test]
fn client_log_is_sparse() {
    assert!(is_client(true, false));
    assert!(is_client(false, true));
    assert!(!is_client(false, false));
    assert_eq!(client_log_level(Some(CliCommand::Convert), true, false), None);
    assert_eq!(client_log_level(Some(CliCommand::Proxy), false, false), None);
    assert_eq!(client_log_level(Some(CliCommand::Other), true, true), None);
    assert_eq!(client_log_level(None, true, false), Some("debug"));
    assert_eq!(client_log_level(Some(CliCommand::Health), true, false), Some("debug"));
    assert_eq!(client_log_level(Some(CliCommand::Health), false, false), Some("off"));
    assert_eq!(client_log_level(Some(CliCommand::Other), false, false), Some("error"));
}

#[test]
fn panic_is_reported() {
    let place = Some(PanicPlace {
        file: "a.rs".into(),
        line: 120,
    });
    assert_eq!(panic_line(&place, Some("boom")), "❌ PANIC at a.rs:120: boom");
    assert_eq!(panic_line(&None, None), "❌ PANIC: unknown panic");
    assert_eq!(
        panic_lines(&place, Some("boom")),
        ["Panic reason: boom", "Panic location: a.rs:120", "Panic backtrace:"]
    );
    assert_eq!(
        panic_lines(&None, None),
        ["Panic reason: <unknown>", "Panic backtrace:"]
    );
}

#[test]
fn server_announces_itself() {
    assert_eq!(listen_address(8085), "0.0.0.0:8085");
    assert_eq!(listen_address(0), "0.0.0.0:0");
    assert_eq!(
        startup_lines("1.0", &settings()),
        vec![
            "========================================".to_string(),
            "Starting MCP proxy service...".to_string(),
            "Version: 1.0".to_string(),
            "Configuration loaded:".to_string(),
            "  - Port: 8085".to_string(),
            "  - Log directory: ./logs".to_string(),
            "  - Log level: info".to_string(),
            "  - Log retention days: 5".to_string(),
            "========================================".to_string(),
        ]
    );
    assert_eq!(
        listening_lines(&settings()),
        vec![
            "MCP proxy started: 0.0.0.0:8085".to_string(),
            "Health endpoint: http://0.0.0.0:8085/health".to_string(),
            "MCP list endpoint: http://0.0.0.0:8085/mcp/list".to_string(),
            "Background schedule task started".to_string(),
            "Log rotation configured (keep last 5 files)".to_string(),
        ]
    );
    let all = Overrides {
        port: true,
        log_dir: Some("/d".into()),
        log_level: Some("warn".into()),
    };
    assert_eq!(
        override_lines(&all, 8085),
        vec![
            "  - MCP_PROXY_PORT override detected: 8085".to_string(),
            "  - MCP_PROXY_LOG_DIR override detected: /d".to_string(),
            "  - MCP_PROXY_LOG_LEVEL override detected: warn".to_string(),
        ]
    );
    let none = Overrides {
        port: false,
        log_dir: None,
        log_level: None,
    };
    assert!(override_lines(&none, 8085).is_empty());
    let head = vec![
        "========================================",
        "Starting MCP proxy service...",
        "Running in proxy server mode",
        "Version: 1.0",
        "Configuration:",
        "  - Listen port: 8085",
        "  - Log directory: ./logs",
        "  - Log level: info",
        "  - Log retention days: 5",
        "Environment overrides:",
    ];
    let logged = server_lines("1.0", &settings(), &none);
    assert_eq!(logged[..10], head[..]);
    assert_eq!(logged[10..], ["========================================"]);
    let logged = server_lines("1.0", &settings(), &all);
    assert_eq!(logged[..10], head[..]);
    assert_eq!(
        logged[10..],
        [
            "  - MCP_PROXY_PORT override detected: 8085",
            "  - MCP_PROXY_LOG_DIR override detected: /d",
            "  - MCP_PROXY_LOG_LEVEL override detected: warn",
            "========================================",
        ]
    );
}
