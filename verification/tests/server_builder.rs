use std::sync::Arc;

use mcp_proxy::backend_cell::Backends;
use mcp_proxy::headers::HeaderError;
use mcp_proxy::server_builder::{
    log_connection_timing, BackendAction, BackendConfig, BridgeRef, Connected, SseServerBuilder,
    SseServerBuilderConfig, HTTP_SLOW_THRESHOLD_SECS, STDIO_SLOW_THRESHOLD_SECS,
};
use mcp_proxy::sse_handler::{Capabilities, Icon, ServerInfo, SseServerHandler};
use mcp_proxy::table::Table;
use mcp_proxy::time::Duration;
use mcp_proxy::tools::ToolFilter;

fn echo(args: Option<Vec<String>>) -> BackendConfig {
    BackendConfig::Stdio {
        command: "echo".into(),
        args,
        env: None,
    }
}

fn table(entries: &[(&str, &str)]) -> Table<String> {
    let mut t: Table<String> = Table::new();
    for (k, v) in entries {
        t = t.with(k.to_string(), v.to_string());
    }
    t
}

fn info(name: &str) -> ServerInfo<u8> {
    ServerInfo {
        protocol_version: "2025-06-18".into(),
        name: name.into(),
        version: "3.2.1".into(),
        title: Some("Title".into()),
        website_url: Some("https://example.org".into()),
        icons: Some(Arc::new(vec![Icon {
            src: "i.png".into(),
            mime_type: Some("image/png".into()),
            sizes: None,
        }])),
        instructions: Some("Do this".into()),
        capabilities: Capabilities {
            tools: true,
            resources: false,
            prompts: true,
            all: Some(Arc::new(42)),
        },
    }
}

#[test]
fn test_builder_creation() {
    let builder = SseServerBuilder::new(echo(Some(vec!["hello".into()])))
        .mcp_id("test")
        .sse_path("/custom/sse")
        .post_path("/custom/message");

    assert!(builder.server_config.mcp_id.is_some());
    assert_eq!(builder.server_config.mcp_id.as_deref(), Some("test"));
    assert_eq!(builder.server_config.sse_path, "/custom/sse");
    assert_eq!(builder.server_config.post_path, "/custom/message");
}

#[test]
fn test_default_config() {
    let config = SseServerBuilderConfig::default();
    assert_eq!(config.sse_path, "/sse");
    assert_eq!(config.post_path, "/message");
    assert_eq!(config.keep_alive_secs, 15);
    assert!(
        config.stateful,
        "default stateful should be true for backward compatibility"
    );
}

#[test]
fn test_stateful_flag_default() {
    let builder = SseServerBuilder::new(echo(None));
    assert!(
        builder.server_config.stateful,
        "stateful should default to true"
    );
}

#[test]
fn test_stateful_flag_disabled() {
    let builder = SseServerBuilder::new(echo(None)).stateful(false);
    assert!(
        !builder.server_config.stateful,
        "stateful should be false when set"
    );
}

#[test]
fn test_stateful_flag_enabled() {
    let builder = SseServerBuilder::new(echo(None)).stateful(true);
    assert!(
        builder.server_config.stateful,
        "stateful should be true when set"
    );
}

#[test]
fn test_timing_constants() {
    assert_eq!(STDIO_SLOW_THRESHOLD_SECS, 30);
    assert_eq!(HTTP_SLOW_THRESHOLD_SECS, 10);
}

#[test]
fn test_log_connection_timing_format() {
    let report = log_connection_timing(
        "test-mcp",
        "TestBackend",
        Duration::from_millis(1500),
        &[
            ("step1", Duration::from_millis(500)),
            ("step2", Duration::from_millis(1000)),
        ],
        10,
        "Test warning message",
    );
    assert_eq!(
        report.info,
        "[SseServerBuilder] TestBackend backend connected successfully - MCP ID: test-mcp, \
         total: 1.5s (step1: 500ms, step2: 1s)"
    );
    assert_eq!(report.warning, None);
}

#[test]
fn test_log_connection_timing_no_breakdown() {
    let report = log_connection_timing(
        "test-mcp",
        "TestBackend",
        Duration::from_millis(500),
        &[],
        10,
        "Test warning message",
    );
    assert_eq!(
        report.info,
        "[SseServerBuilder] TestBackend backend connected successfully - MCP ID: test-mcp, \
         total: 500ms ()"
    );
    assert_eq!(report.warning, None);
}

#[test]
fn slow_connection_is_warned_about() {
    let at_limit = log_connection_timing("m", "SSE", Duration::from_secs(10), &[], 10, "look");
    assert_eq!(
        at_limit.warning.as_deref(),
        Some(
            "[SseServerBuilder] SSE backend connection takes a long time - MCP ID: m, \
             time: 10s, look"
        )
    );
    let below = log_connection_timing("m", "SSE", Duration::from_millis(9999), &[], 10, "look");
    assert_eq!(below.warning, None);
}

#[test]
fn other_settings_are_kept() {
    let filter = ToolFilter {
        allow_tools: None,
        deny_tools: Some(vec!["rm".into()]),
    };
    let builder = SseServerBuilder::new(echo(None))
        .mcp_id(String::from("svc"))
        .tool_filter(filter)
        .keep_alive(5);
    assert_eq!(builder.server_config.keep_alive_secs, 5);
    assert_eq!(builder.server_config.sse_path, "/sse");
    assert_eq!(builder.server_config.post_path, "/message");
    assert!(builder.server_config.stateful);
    let endpoint = builder.create_server();
    assert_eq!(endpoint.bind, "0.0.0.0:0");
    assert_eq!(endpoint.sse_path, "/sse");
    assert_eq!(endpoint.post_path, "/message");
    assert_eq!(endpoint.keep_alive, Duration::from_secs(5));
    assert!(endpoint.stateful);
    assert_eq!(builder.service_id(), "svc");
    assert_eq!(builder.connection_label(), "svc");
}

#[test]
fn unnamed_service_has_a_name() {
    let builder = SseServerBuilder::new(echo(None));
    assert_eq!(builder.service_id(), "sse-proxy");
    assert_eq!(builder.connection_label(), "unknown");
}

#[test]
fn shown_backend_hides_secrets() {
    let stdio = BackendConfig::Stdio {
        command: "npx".into(),
        args: Some(vec!["-y".into(), "a \"b\"".into()]),
        env: Some(table(&[("TOKEN", "secret")])),
    };
    assert_eq!(
        stdio.debug_text(),
        "Stdio { command: \"npx\", args: Some([\"-y\", \"a \\\"b\\\"\"]) }"
    );
    assert_eq!(
        echo(None).debug_text(),
        "Stdio { command: \"echo\", args: None }"
    );
    let url = BackendConfig::SseUrl {
        url: "http://h/sse".into(),
        headers: Some(table(&[("Authorization", "Bearer secret")])),
    };
    assert_eq!(url.debug_text(), "SseUrl { url: \"http://h/sse\" }");
    let bridge = BackendConfig::BackendBridge(BridgeRef {
        mcp_id: "svc".into(),
        number: 4,
    });
    assert_eq!(bridge.debug_text(), "BackendBridge { mcp_id: \"svc\" }");
}

#[test]
fn child_process_is_planned() {
    let builder = SseServerBuilder::new(echo(None));
    let plan = builder.connect_stdio(
        "npx",
        &Some(vec!["-y".into()]),
        &Some(table(&[("A", "1"), ("B", "2"), ("A", "3")])),
    );
    assert_eq!(plan.command, "npx");
    assert_eq!(plan.args, vec!["-y".to_string()]);
    assert_eq!(plan.env.len(), 2);
    assert_eq!(plan.env.get("A"), Some(&"3".to_string()));
    assert_eq!(plan.env.get("B"), Some(&"2".to_string()));
    let bare = builder.connect_stdio("npx", &None, &None);
    assert!(bare.args.is_empty());
    assert!(bare.env.is_empty());
}

#[test]
fn headers_of_a_url_are_parsed() {
    let builder = SseServerBuilder::new(echo(None));
    let headers = builder
        .connect_sse_url(&Some(table(&[("X-Key", "one"), ("x-key", "two"), ("A", "b")])))
        .unwrap();
    assert_eq!(headers.len(), 2);
    assert_eq!(headers.get("x-key").unwrap(), "two");
    assert_eq!(headers.get("a").unwrap(), "b");
    assert!(builder.connect_sse_url(&None).unwrap().is_empty());

    let bad_name = builder
        .connect_sse_url(&Some(table(&[("A", "b"), ("bad name", "x")])))
        .unwrap_err();
    assert!(matches!(bad_name, HeaderError::InvalidName { .. }));
    assert_eq!(
        bad_name.sse_client_message(),
        "Invalid header name 'bad name': invalid HTTP header name"
    );
    let bad_value = builder
        .connect_sse_url(&Some(table(&[("A", "line\nbreak")])))
        .unwrap_err();
    assert!(matches!(bad_value, HeaderError::InvalidValue { .. }));
    assert_eq!(
        bad_value.sse_client_message(),
        "Invalid header value for 'A': failed to parse header value"
    );
}

#[test]
fn handler_follows_the_connection() {
    let filter = ToolFilter {
        allow_tools: Some(vec!["ls".into()]),
        deny_tools: None,
    };
    let mut backends = Backends::new();
    let handler = SseServerBuilder::new(echo(None)).tool_filter(filter).build(
        &mut backends,
        Connected {
            number: 7,
            info: Some(info("backend")),
            default_info: info("default"),
        },
    );
    assert_eq!(handler.mcp_id(), "sse-proxy");
    let told = handler.get_info();
    assert_eq!(told.protocol_version, "2025-06-18");
    assert_eq!(told.name, "backend");
    assert_eq!(told.title, None);
    assert_eq!(told.website_url, None);
    assert!(told.icons.is_none());
    assert_eq!(told.capabilities.all.as_deref(), Some(&42));
    assert_eq!(told.instructions.as_deref(), Some("Do this"));
    match handler {
        SseServerHandler::Sse(h) => assert_eq!(h.backend(&backends), Some(7)),
        SseServerHandler::BackendSession(_) => panic!("wrong handler"),
    }

    let bridge = BackendConfig::BackendBridge(BridgeRef {
        mcp_id: "b".into(),
        number: 4,
    });
    let bridged = SseServerBuilder::new(bridge.clone()).mcp_id("b").build(
        &mut backends,
        Connected {
            number: 4,
            info: Some(info("bridge")),
            default_info: info("default"),
        },
    );
    assert_eq!(bridged.mcp_id(), "b");
    assert_eq!(bridged.get_info().protocol_version, "2024-11-05");
    assert_eq!(bridged.get_info().name, "bridge");
    assert_eq!(bridged.get_info().title.as_deref(), Some("Title"));
    assert_eq!(bridged.get_info().icons.unwrap()[0].src, "i.png");
    assert_eq!(bridged.get_info().capabilities.all.as_deref(), Some(&42));
    assert!(matches!(bridged, SseServerHandler::BackendSession(_)));
    let silent = SseServerBuilder::new(bridge).build(
        &mut backends,
        Connected {
            number: 4,
            info: None,
            default_info: info("default"),
        },
    );
    assert_eq!(silent.mcp_id(), "sse-proxy");
    assert_eq!(silent.get_info().name, "default");
}

#[test]
fn backend_decides_how_it_is_connected() {
    match SseServerBuilder::new(echo(Some(vec!["hi".into()])))
        .backend_action()
        .unwrap()
    {
        BackendAction::Spawn(plan) => {
            assert_eq!(plan.command, "echo");
            assert_eq!(plan.args, vec!["hi".to_string()]);
            assert!(plan.env.is_empty());
        }
        _ => panic!("wrong action"),
    }
    let url = |value: &str| BackendConfig::SseUrl {
        url: "http://h/sse".into(),
        headers: Some(table(&[("K", value)])),
    };
    match SseServerBuilder::new(url("v")).backend_action().unwrap() {
        BackendAction::Connect { url, headers } => {
            assert_eq!(url, "http://h/sse");
            assert_eq!(headers.get("k").unwrap(), "v");
        }
        _ => panic!("wrong action"),
    }
    assert!(matches!(
        SseServerBuilder::new(url("a\nb")).backend_action(),
        Err(HeaderError::InvalidValue { .. })
    ));
    let bridge = BackendConfig::BackendBridge(BridgeRef {
        mcp_id: "b".into(),
        number: 4,
    });
    match SseServerBuilder::new(bridge).backend_action().unwrap() {
        BackendAction::UseBridge(bridge) => {
            assert_eq!(bridge.mcp_id, "b");
            assert_eq!(bridge.number, 4);
        }
        _ => panic!("wrong action"),
    }
}

#[test]
fn connections_are_reported() {
    let builder = SseServerBuilder::new(echo(None)).mcp_id("svc");
    let quick = builder.stdio_report(
        Duration::from_secs(29),
        Duration::from_secs(1),
        Duration::from_secs(28),
    );
    assert_eq!(
        quick.info,
        "[SseServerBuilder] Stdio backend connected successfully - MCP ID: svc, \
         total: 29s (spawn: 1s, serve: 28s)"
    );
    assert_eq!(quick.warning, None);
    let slow = builder.stdio_report(
        Duration::from_secs(30),
        Duration::from_secs(1),
        Duration::from_secs(29),
    );
    assert_eq!(
        slow.warning.as_deref(),
        Some(
            "[SseServerBuilder] Stdio backend connection takes a long time - MCP ID: svc, \
             time: 30s, 建议的优化方案: \
             1) 检查网络连接速度 (npm 包下载) \
             2) 配置国内 npm 镜像 (如淘宝镜像: npm config set registry https://registry.npmmirror.com) \
             3) 预热服务 (启动 mcp-proxy 时预先加载常用服务) \
             4) 检查命令参数是否正确"
        )
    );
    let url = SseServerBuilder::new(echo(None)).sse_report(
        Duration::from_secs(10),
        Duration::from_secs(4),
        Duration::from_secs(6),
    );
    assert_eq!(
        url.info,
        "[SseServerBuilder] SSE backend connected successfully - MCP ID: unknown, \
         total: 10s (transport: 4s, serve: 6s)"
    );
    assert_eq!(
        url.warning.as_deref(),
        Some(
            "[SseServerBuilder] SSE backend connection takes a long time - MCP ID: unknown, \
             time: 10s, 建议: 检查网络连接和后端服务状态"
        )
    );
}
