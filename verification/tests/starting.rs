use mcp_proxy::launch::McpServerCommandConfig;
use mcp_proxy::model::{McpProtocol, McpType};
use mcp_proxy::server_builder::BackendConfig;
use mcp_proxy::start_task::{
    Frontend, McpServerConfig, McpServerUrlConfig, ServicePath, StreamBackendConfig,
};
use mcp_proxy::starting::{
    start_begin, start_expects, start_step, StartAction, StartEvent, StartPhase, StartRequest,
};

fn command() -> McpServerConfig {
    McpServerConfig::Command(McpServerCommandConfig {
        command: "npx".into(),
        args: None,
        env: None,
    })
}

fn url(protocol_name: Option<&str>) -> McpServerConfig {
    McpServerConfig::Url(McpServerUrlConfig {
        url: "http://h/x".into(),
        protocol_name: protocol_name.map(|s| s.to_string()),
        headers: None,
        auth_token: Some("tok".into()),
    })
}

fn sse() -> Frontend {
    Frontend::Sse {
        sse_path: "/s".into(),
        message_path: "/m".into(),
    }
}

fn request(
    config: McpServerConfig,
    frontend: Frontend,
    parsed: Option<McpProtocol>,
) -> StartRequest {
    StartRequest {
        config,
        path: ServicePath {
            mcp_id: "svc".into(),
            base_path: "/base".into(),
            frontend,
        },
        mcp_type: McpType::Persistent,
        parsed,
    }
}

fn step(
    request: &StartRequest,
    phase: StartPhase,
    event: StartEvent,
) -> (StartPhase, StartAction) {
    assert!(start_expects(phase, &event), "{:?}: {:?}", phase, event);
    start_step(request, phase, event)
}

fn failure(action: StartAction) -> String {
    match action {
        StartAction::Fail { message } => message,
        _ => panic!("did not fail"),
    }
}

#[test]
fn command_is_started_at_once() {
    let request = request(command(), sse(), None);
    let (phase, action) = start_begin(&request);
    assert_eq!(phase, StartPhase::Building);
    match action {
        StartAction::BuildSse(builder) => {
            assert_eq!(builder.service_id(), "svc");
            assert!(matches!(builder.backend_config, BackendConfig::Stdio { .. }));
        }
        _ => panic!("wrong action"),
    }
    let (done, action) = step(&request, phase, StartEvent::Built(true));
    assert_eq!(done, StartPhase::Done);
    match action {
        StartAction::Register(steps) => assert_eq!(steps.len(), 5),
        _ => panic!("wrong action"),
    }
    let (done, action) = step(&request, phase, StartEvent::Built(false));
    assert_eq!(done, StartPhase::Done);
    assert_eq!(
        failure(action),
        "SSE server build failed - MCP ID: svc, type: Persistent"
    );
    assert!(!start_expects(done, &StartEvent::Built(true)));
}

#[test]
fn unknown_backend_is_asked_and_bridged() {
    let request = request(url(Some("odd")), sse(), None);
    let (phase, action) = start_begin(&request);
    assert_eq!(phase, StartPhase::Detecting);
    match action {
        StartAction::Detect { url, headers } => {
            assert_eq!(url, "http://h/x");
            assert_eq!(headers.unwrap().get("Authorization").unwrap(), "Bearer tok");
        }
        _ => panic!("wrong action"),
    }
    let (_, action) = step(&request, phase, StartEvent::Detected(Err("e".into())));
    assert_eq!(
        failure(action),
        "Protocol type 'odd' unrecognized and auto-detection failed: e"
    );
    let (phase, action) = step(
        &request,
        phase,
        StartEvent::Detected(Ok(McpProtocol::Stream)),
    );
    assert_eq!(phase, StartPhase::Connecting);
    match action {
        StartAction::Connect(config) => assert_eq!(config.url, "http://h/x"),
        _ => panic!("wrong action"),
    }
    let (_, action) = step(&request, phase, StartEvent::Connected(Err("refused".into())));
    assert_eq!(failure(action), "refused");
    let (phase, action) = step(&request, phase, StartEvent::Connected(Ok(4)));
    assert_eq!(phase, StartPhase::Building);
    match action {
        StartAction::BuildSse(builder) => match builder.backend_config {
            BackendConfig::BackendBridge(bridge) => {
                assert_eq!(bridge.number, 4);
                assert_eq!(bridge.mcp_id, "svc");
            }
            _ => panic!("wrong backend"),
        },
        _ => panic!("wrong action"),
    }
    let (phase, _) = step(&request, phase, StartEvent::Built(true));
    assert_eq!(phase, StartPhase::Done);
}

#[test]
fn known_protocol_is_not_asked_for() {
    let known = request(url(Some("sse")), sse(), Some(McpProtocol::Sse));
    let (phase, action) = start_begin(&known);
    assert_eq!(phase, StartPhase::Building);
    match action {
        StartAction::BuildSse(builder) => match builder.backend_config {
            BackendConfig::SseUrl { headers, .. } => {
                assert_eq!(headers.unwrap().get("Authorization").unwrap(), "Bearer tok")
            }
            _ => panic!("wrong backend"),
        },
        _ => panic!("wrong action"),
    }
    let streamed = request(
        url(Some("stream")),
        Frontend::Stream,
        Some(McpProtocol::Stream),
    );
    match start_begin(&streamed).1 {
        StartAction::BuildStream(plan) => {
            assert!(matches!(plan.backend, StreamBackendConfig::Url { .. }))
        }
        _ => panic!("wrong action"),
    }
}

#[test]
fn start_fails_where_no_server_fits() {
    let (phase, action) = start_begin(&request(command(), Frontend::Stdio, None));
    assert_eq!(phase, StartPhase::Done);
    assert_eq!(
        failure(action),
        "Client protocol cannot be Stdio. McpRouterPath::new does not support creating Stdio \
         protocol router paths"
    );
    let stdio = request(url(Some("stdio")), sse(), Some(McpProtocol::Stdio));
    assert_eq!(
        failure(start_begin(&stdio).1),
        "URL-based MCP service cannot use Stdio protocol"
    );
    let events = request(url(Some("sse")), Frontend::Stream, Some(McpProtocol::Sse));
    assert_eq!(
        failure(start_begin(&events).1),
        "SSE backend with Streamable HTTP frontend is not yet supported. \
         Please use SSE frontend or configure a Streamable HTTP backend."
    );
}
