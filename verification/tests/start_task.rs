use mcp_proxy::launch::{
    create_client_info, create_default_client_info, log_command_details, sse_server_client_info,
    stream_server_client_info, McpServerCommandConfig,
};
use mcp_proxy::model::{McpProtocol, McpType};
use mcp_proxy::server_builder::{BackendConfig, BridgeRef};
use mcp_proxy::start_task::{
    after_build, backend_protocol, bridge_server, build_sse_backend_config,
    build_stream_backend_config, connect_stream_backend, detected_protocol, plan_server, Frontend,
    McpServerConfig, McpServerUrlConfig, ProtocolChoice, RegistrationStep, ServerPlan,
    ServicePath, StreamBackendConfig,
};
use mcp_proxy::table::Table;

fn table(entries: &[(&str, &str)]) -> Table<String> {
    let mut t: Table<String> = Table::new();
    for (k, v) in entries {
        t = t.with(k.to_string(), v.to_string());
    }
    t
}

fn command() -> McpServerConfig {
    McpServerConfig::Command(McpServerCommandConfig {
        command: "npx".into(),
        args: Some(vec!["-y".into(), "srv".into()]),
        env: Some(table(&[("KEY", "secret"), ("B", "2")])),
    })
}

fn url(protocol_name: Option<&str>, auth_token: Option<&str>) -> McpServerConfig {
    McpServerConfig::Url(McpServerUrlConfig {
        url: "http://h/x".into(),
        protocol_name: protocol_name.map(|s| s.to_string()),
        headers: Some(table(&[("Authorization", "abc"), ("K", "v")])),
        auth_token: auth_token.map(|s| s.to_string()),
    })
}

fn path(frontend: Frontend) -> ServicePath {
    ServicePath {
        mcp_id: "svc".into(),
        base_path: "/base".into(),
        frontend,
    }
}

fn sse() -> ServicePath {
    path(Frontend::Sse {
        sse_path: "/s".into(),
        message_path: "/m".into(),
    })
}

#[test]
fn protocol_is_known_or_detected() {
    assert!(matches!(
        backend_protocol(&command(), None),
        ProtocolChoice::Known(McpProtocol::Stdio)
    ));
    assert!(matches!(
        backend_protocol(&url(Some("sse"), None), Some(McpProtocol::Sse)),
        ProtocolChoice::Known(McpProtocol::Sse)
    ));
    match backend_protocol(&url(Some("odd"), Some("tok")), None) {
        ProtocolChoice::Detect {
            url,
            headers,
            protocol_name,
        } => {
            assert_eq!(url, "http://h/x");
            let headers = headers.unwrap();
            assert_eq!(headers.get("Authorization").unwrap(), "Bearer tok");
            assert_eq!(headers.get("K").unwrap(), "v");
            assert_eq!(protocol_name.as_deref(), Some("odd"));
        }
        other => panic!("{:?}", other),
    }
    assert!(matches!(
        backend_protocol(&url(None, None), None),
        ProtocolChoice::Detect {
            protocol_name: None,
            ..
        }
    ));
    assert_eq!(
        detected_protocol(&None, Ok(McpProtocol::Stream)),
        Ok(McpProtocol::Stream)
    );
    assert_eq!(
        detected_protocol(&None, Err("e".into())),
        Err("Auto-detection failed: e".to_string())
    );
    assert_eq!(
        detected_protocol(&Some("odd".into()), Err("e".into())),
        Err("Protocol type 'odd' unrecognized and auto-detection failed: e".to_string())
    );
}

#[test]
fn sse_backends_are_built() {
    match build_sse_backend_config(&command(), McpProtocol::Stdio).unwrap() {
        BackendConfig::Stdio { command, args, env } => {
            assert_eq!(command, "npx");
            assert_eq!(args, Some(vec!["-y".to_string(), "srv".to_string()]));
            assert_eq!(env.unwrap().get("KEY").unwrap(), "secret");
        }
        _ => panic!("wrong backend"),
    }
    match build_sse_backend_config(&url(None, Some("tok")), McpProtocol::Sse).unwrap() {
        BackendConfig::SseUrl { url, headers } => {
            assert_eq!(url, "http://h/x");
            let headers = headers.unwrap();
            assert_eq!(headers.len(), 2);
            assert_eq!(headers.get("Authorization").unwrap(), "Bearer tok");
            assert_eq!(headers.get("K").unwrap(), "v");
        }
        _ => panic!("wrong backend"),
    }
    match build_sse_backend_config(&url(None, None), McpProtocol::Sse).unwrap() {
        BackendConfig::SseUrl { headers, .. } => {
            assert_eq!(headers.unwrap().get("Authorization").unwrap(), "Bearer abc");
        }
        _ => panic!("wrong backend"),
    }
    assert_eq!(
        build_sse_backend_config(&url(None, None), McpProtocol::Stdio)
            .err()
            .unwrap(),
        "URL-based MCP service cannot use Stdio protocol"
    );
    assert_eq!(
        build_sse_backend_config(&url(None, None), McpProtocol::Stream)
            .err()
            .unwrap(),
        "Stream backend should be handled via connect_stream_backend(), \
         not build_sse_backend_config()"
    );
}

fn sse_headers(
    headers: Option<Table<String>>,
    auth_token: Option<&str>,
) -> Option<Table<String>> {
    let config = McpServerConfig::Url(McpServerUrlConfig {
        url: "http://h/x".into(),
        protocol_name: None,
        headers,
        auth_token: auth_token.map(|s| s.to_string()),
    });
    match build_sse_backend_config(&config, McpProtocol::Sse).unwrap() {
        BackendConfig::SseUrl { headers, .. } => headers,
        _ => panic!("wrong backend"),
    }
}

#[test]
fn token_of_an_sse_backend_is_sent() {
    let alone = sse_headers(None, Some("tok")).unwrap();
    assert_eq!(alone.len(), 1);
    assert_eq!(alone.get("Authorization").unwrap(), "Bearer tok");
    let marked = sse_headers(Some(table(&[])), Some("Bearer tok")).unwrap();
    assert_eq!(marked.get("Authorization").unwrap(), "Bearer tok");
    assert!(sse_headers(Some(table(&[])), None).unwrap().is_empty());
    assert!(sse_headers(None, None).is_none());
    let bridged = connect_stream_backend(&url(None, Some("tok"))).unwrap();
    let direct = sse_headers(
        Some(table(&[("Authorization", "abc"), ("K", "v")])),
        Some("tok"),
    )
    .unwrap();
    assert_eq!(bridged.headers.len(), direct.len());
    for key in ["Authorization", "K"] {
        assert_eq!(bridged.headers.get(key), direct.get(key));
    }
}

#[test]
fn stream_backends_are_built() {
    assert!(matches!(
        build_stream_backend_config(&command(), McpProtocol::Stdio),
        Ok(StreamBackendConfig::Stdio { .. })
    ));
    match build_stream_backend_config(&url(None, None), McpProtocol::Stream).unwrap() {
        StreamBackendConfig::Url { url, headers } => {
            assert_eq!(url, "http://h/x");
            assert_eq!(headers.unwrap().get("Authorization").unwrap(), "Bearer abc");
        }
        StreamBackendConfig::Stdio { .. } => panic!("wrong backend"),
    }
    assert_eq!(
        build_stream_backend_config(&url(None, None), McpProtocol::Stdio)
            .err()
            .unwrap(),
        "URL-based MCP service cannot use Stdio protocol"
    );
    assert_eq!(
        build_stream_backend_config(&url(None, None), McpProtocol::Sse)
            .err()
            .unwrap(),
        "SSE backend with Streamable HTTP frontend is not yet supported. \
         Please use SSE frontend or configure a Streamable HTTP backend."
    );
}

#[test]
fn stream_connection_needs_a_url() {
    assert_eq!(
        connect_stream_backend(&command()).err().unwrap(),
        "Stream backend requires URL-based config"
    );
    let config = connect_stream_backend(&url(None, Some("Bearer tok"))).unwrap();
    assert_eq!(config.url, "http://h/x");
    assert_eq!(config.headers.get("Authorization").unwrap(), "Bearer tok");
    assert_eq!(config.headers.get("K").unwrap(), "v");
}

#[test]
fn servers_are_planned() {
    match plan_server(&command(), &sse(), McpType::OneShot, McpProtocol::Stdio).unwrap() {
        ServerPlan::Sse(builder) => {
            assert_eq!(builder.server_config.mcp_id.as_deref(), Some("svc"));
            assert_eq!(builder.server_config.sse_path, "/s");
            assert_eq!(builder.server_config.post_path, "/m");
            assert_eq!(builder.server_config.keep_alive_secs, 5);
            assert!(!builder.server_config.stateful);
        }
        _ => panic!("wrong plan"),
    }
    match plan_server(&url(None, None), &sse(), McpType::Persistent, McpProtocol::Sse).unwrap() {
        ServerPlan::Sse(builder) => {
            assert_eq!(builder.server_config.keep_alive_secs, 15);
            assert!(builder.server_config.stateful);
        }
        _ => panic!("wrong plan"),
    }
    match plan_server(&url(None, None), &sse(), McpType::Persistent, McpProtocol::Stream).unwrap()
    {
        ServerPlan::Bridge(config) => {
            assert_eq!(config.headers.get("Authorization").unwrap(), "Bearer abc");
            assert!(config.connect_timeout.is_none());
            assert!(config.read_timeout.is_none());
        }
        _ => panic!("wrong plan"),
    }
    match plan_server(
        &command(),
        &path(Frontend::Stream),
        McpType::Persistent,
        McpProtocol::Stdio,
    )
    .unwrap()
    {
        ServerPlan::Stream(plan) => {
            assert_eq!(plan.mcp_id, "svc");
            assert!(!plan.stateful);
        }
        _ => panic!("wrong plan"),
    }
    assert_eq!(
        plan_server(
            &command(),
            &path(Frontend::Stdio),
            McpType::Persistent,
            McpProtocol::Stdio
        )
        .err()
        .unwrap(),
        "Client protocol cannot be Stdio. McpRouterPath::new does not support creating Stdio \
         protocol router paths"
    );
    let bridge = BridgeRef {
        mcp_id: "svc".into(),
        number: 3,
    };
    let builder = bridge_server(bridge.clone(), &sse(), McpType::OneShot).unwrap();
    assert_eq!(builder.server_config.keep_alive_secs, 5);
    assert!(matches!(builder.backend_config, BackendConfig::BackendBridge(b) if b.number == 3));
    assert!(bridge_server(bridge, &path(Frontend::Stream), McpType::OneShot).is_none());
}

fn steps(frontend: Frontend) -> Vec<String> {
    after_build(&path(frontend), McpType::Persistent, true)
        .unwrap()
        .into_iter()
        .map(|step| match step {
            RegistrationStep::AddService {
                mcp_id,
                mcp_type,
                status,
            } => format!("service {mcp_id} {mcp_type:?} {status:?}"),
            RegistrationStep::CacheConfig { mcp_id } => format!("config {mcp_id}"),
            RegistrationStep::AddFallback => "fallback".to_string(),
            RegistrationStep::RegisterRoute { base_path } => format!("route {base_path}"),
            RegistrationStep::RecordRestart { mcp_id } => format!("restart {mcp_id}"),
        })
        .collect()
}

#[test]
fn service_is_registered_once_built() {
    assert_eq!(
        steps(sse().frontend),
        vec![
            "service svc Persistent Ready",
            "config svc",
            "fallback",
            "route /base",
            "restart svc",
        ]
    );
    assert_eq!(
        steps(Frontend::Stream),
        vec![
            "service svc Persistent Ready",
            "config svc",
            "route /base",
            "restart svc",
        ]
    );
    assert_eq!(
        after_build(&sse(), McpType::OneShot, false).unwrap_err(),
        "SSE server build failed - MCP ID: svc, type: OneShot"
    );
    assert_eq!(
        after_build(&path(Frontend::Stream), McpType::Persistent, false).unwrap_err(),
        "Stream server build failed - MCP ID: svc, type: Persistent"
    );
    for built in [true, false] {
        assert_eq!(
            after_build(&path(Frontend::Stdio), McpType::Persistent, built).unwrap_err(),
            "Client protocol cannot be Stdio. McpRouterPath::new does not support creating \
             Stdio protocol router paths"
        );
    }
}

#[test]
fn command_details_hide_values() {
    let config = McpServerCommandConfig {
        command: "npx".into(),
        args: Some(vec!["-y".into(), "srv".into()]),
        env: Some(table(&[("KEY", "secret"), ("B", "2")])),
    };
    let details = log_command_details(&config);
    assert_eq!(details.command_line, "Executing command: npx -y srv");
    assert_eq!(
        details.env_keys,
        Some(vec!["KEY".to_string(), "B".to_string()])
    );
    let bare = log_command_details(&McpServerCommandConfig {
        command: "ls".into(),
        args: None,
        env: Some(table(&[])),
    });
    assert_eq!(bare.command_line, "Executing command: ls ");
    assert_eq!(bare.env_keys, None);
}

#[test]
fn clients_introduce_themselves() {
    let cli = create_client_info("1.2.3");
    assert_eq!(cli.name, Some("mcp-proxy-cli"));
    assert_eq!(cli.version.as_deref(), Some("1.2.3"));
    assert_eq!(cli.protocol_version, Some("2026-07-28"));
    assert!(cli.elicitation && cli.experimental && cli.roots && cli.roots_list_changed);
    let client = create_default_client_info("1");
    assert_eq!(client.name, Some("mcp-streamable-proxy-client"));
    assert_eq!(client.protocol_version, None);
    assert!(client.sampling && !client.elicitation);
    assert_eq!(
        stream_server_client_info("1").name,
        Some("mcp-streamable-proxy-server")
    );
    assert_eq!(
        sse_server_client_info().protocol_version,
        Some("2024-11-05")
    );
    assert_eq!(sse_server_client_info().name, None);
}
