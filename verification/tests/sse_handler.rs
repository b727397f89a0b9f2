use std::sync::Arc;

use mcp_proxy::backend_cell::Backends;
use mcp_proxy::sse_handler::{
    default_server_info, finish, BackendSessionHandler, CallGate, Capabilities, Gate, Icon,
    Method, Outcome, ServerInfo, SseHandler, SseServerHandler,
};
use mcp_proxy::tools::{ToolEntry, ToolFilter, ToolPage};

fn info(tools: bool, resources: bool, prompts: bool) -> ServerInfo<&'static str> {
    ServerInfo {
        protocol_version: "2025-03-26".into(),
        name: "srv".into(),
        version: "1".into(),
        title: None,
        website_url: None,
        icons: Some(Arc::new(vec![Icon {
            src: "i.png".into(),
            mime_type: None,
            sizes: Some(vec!["any".into()]),
        }])),
        instructions: None,
        capabilities: Capabilities {
            tools,
            resources,
            prompts,
            all: Some(Arc::new("logging and more")),
        },
    }
}

fn deny(name: &str) -> ToolFilter {
    ToolFilter {
        allow_tools: None,
        deny_tools: Some(vec![name.into()]),
    }
}

fn failed(gate: Gate) -> String {
    match gate {
        Gate::Fail(message) => message,
        other => panic!("not refused: {:?}", other),
    }
}

fn tool_error(gate: CallGate) -> String {
    match gate {
        CallGate::ToolError(message) => message,
        CallGate::Forward => panic!("forwarded"),
    }
}

const RECONNECTING: &str = "Backend connection is not available, reconnecting...";
const CLOSED: &str = "Backend connection closed, please retry";

#[test]
fn disconnected_handler_refuses() {
    let mut backends = Backends::new();
    let handler =
        SseHandler::new_disconnected(&mut backends, "m".into(), ToolFilter::default(), info(true, true, true));
    assert_eq!(handler.mcp_id(), "m");
    assert_eq!(handler.backend(&backends), None);
    assert_eq!(failed(handler.list_tools(&backends, false)), RECONNECTING);
    assert_eq!(failed(handler.list_resources(&backends, false)), RECONNECTING);
    assert_eq!(failed(handler.read_resource(&backends, false)), RECONNECTING);
    assert_eq!(failed(handler.list_resource_templates(&backends, true)), RECONNECTING);
    assert_eq!(failed(handler.list_prompts(&backends, false)), RECONNECTING);
    assert_eq!(failed(handler.get_prompt(&backends, false)), RECONNECTING);
    assert_eq!(failed(handler.complete(&backends, false)), RECONNECTING);
    assert_eq!(tool_error(handler.call_tool(&backends, "t", false)), RECONNECTING);
    assert!(!handler.is_backend_available(&backends, false));
    assert!(handler.is_terminated(&backends, false));
    assert!(handler.is_terminated_async(&backends, false, true));
    assert!(!handler.is_mcp_server_ready(&backends, false, true));
    assert!(!handler.on_progress(&backends, false));
    assert!(!handler.on_cancelled(&backends, false));
}

#[test]
fn backend_is_swapped() {
    let mut backends = Backends::new();
    let handler = SseHandler::new(&mut backends, 1, &Some(info(true, true, true)));
    assert_eq!(handler.mcp_id(), "unknown");
    assert_eq!(handler.backend(&backends), Some(1));
    assert!(matches!(handler.list_tools(&backends, false), Gate::Forward));
    handler.swap_backend(&mut backends, None);
    assert_eq!(handler.backend(&backends), None);
    assert_eq!(failed(handler.list_tools(&backends, false)), RECONNECTING);
    handler.swap_backend(&mut backends, Some(2));
    assert_eq!(handler.backend(&backends), Some(2));
    assert!(matches!(handler.list_tools(&backends, false), Gate::Forward));
    handler.swap_backend_from_connection(&mut backends, None);
    assert_eq!(handler.backend(&backends), None);
    handler.swap_backend_from_connection(&mut backends, Some(3));
    assert_eq!(handler.backend(&backends), Some(3));
    assert_eq!(handler.get_info().name, "srv");
}

#[test]
fn capabilities_decide() {
    let mut backends = Backends::new();
    let handler = SseHandler::with_mcp_id(&mut backends, 1, &Some(info(false, false, false)), "m".into());
    assert_eq!(failed(handler.list_tools(&backends, true)), CLOSED);
    assert!(matches!(handler.list_tools(&backends, false), Gate::Empty));
    assert!(matches!(handler.list_resources(&backends, false), Gate::Empty));
    assert!(matches!(handler.read_resource(&backends, false), Gate::Empty));
    assert!(matches!(handler.list_resource_templates(&backends, false), Gate::Empty));
    assert!(matches!(handler.list_prompts(&backends, false), Gate::Empty));
    assert!(matches!(handler.get_prompt(&backends, false), Gate::Empty));
    assert!(matches!(handler.complete(&backends, false), Gate::Forward));
    assert_eq!(
        tool_error(handler.call_tool(&backends, "t", false)),
        "Server doesn't support tools capability"
    );
    assert_eq!(tool_error(handler.call_tool(&backends, "t", true)), CLOSED);
    let resources = SseHandler::with_mcp_id(&mut backends, 1, &Some(info(false, true, false)), "m".into());
    assert!(matches!(resources.list_resources(&backends, false), Gate::Forward));
    assert!(matches!(resources.read_resource(&backends, false), Gate::Forward));
    assert!(matches!(
        resources.list_resource_templates(&backends, false),
        Gate::Forward
    ));
    let prompts = SseHandler::with_mcp_id(&mut backends, 1, &Some(info(false, false, true)), "m".into());
    assert!(matches!(prompts.list_prompts(&backends, false), Gate::Forward));
    assert!(matches!(prompts.get_prompt(&backends, false), Gate::Forward));
    assert!(handler.on_progress(&backends, false));
    assert!(!handler.on_progress(&backends, true));
    assert!(handler.on_cancelled(&backends, false));
    assert!(handler.is_mcp_server_ready(&backends, false, true));
    assert!(!handler.is_mcp_server_ready(&backends, false, false));
    assert!(handler.is_terminated_async(&backends, true, true));
}

#[test]
fn filtered_tool_is_refused_first() {
    let mut backends = Backends::new();
    let handler =
        SseHandler::with_tool_filter(&mut backends, 1, &Some(info(true, true, true)), "m".into(), deny("rm"));
    assert!(matches!(handler.call_tool(&backends, "ls", false), CallGate::Forward));
    let refused = "Tool 'rm' is not allowed by filter configuration";
    assert_eq!(tool_error(handler.call_tool(&backends, "rm", false)), refused);
    handler.swap_backend(&mut backends, None);
    assert_eq!(tool_error(handler.call_tool(&backends, "rm", true)), refused);
}

#[test]
fn tools_are_filtered_in_the_reply() {
    let mut backends = Backends::new();
    let handler =
        SseHandler::with_tool_filter(&mut backends, 1, &Some(info(true, true, true)), "m".into(), deny("rm"));
    let page = ToolPage {
        tools: vec![
            ToolEntry {
                name: "ls".to_string(),
                details: 1,
            },
            ToolEntry {
                name: "rm".to_string(),
                details: 2,
            },
        ],
        next_cursor: None,
    };
    let reply = handler.list_tools_reply(Outcome::Answered(page)).unwrap();
    assert_eq!(reply.tools.len(), 1);
    assert_eq!(reply.tools[0].name, "ls");
    let failed = handler.list_tools_reply::<u8>(Outcome::Failed("x".into()));
    assert_eq!(failed.unwrap_err(), "Error listing tools: x");
    let cancelled = handler.list_tools_reply::<u8>(Outcome::Cancelled);
    assert_eq!(cancelled.unwrap_err(), "Request cancelled");
}

#[test]
fn failures_name_the_request() {
    let mut backends = Backends::new();
    for (method, prefix) in [
        (Method::ListTools, "Error listing tools: "),
        (Method::CallTool, "Error: "),
        (Method::ListResources, "Error listing resources: "),
        (Method::ReadResource, "Error reading resource: "),
        (
            Method::ListResourceTemplates,
            "Error listing resource templates: ",
        ),
        (Method::ListPrompts, "Error listing prompts: "),
        (Method::GetPrompt, "Error getting prompt: "),
        (Method::Complete, "Error completing: "),
    ] {
        assert_eq!(
            finish::<u8>(method, Outcome::Failed("e".into())),
            Err(format!("{prefix}e"))
        );
        assert_eq!(
            finish::<u8>(method, Outcome::Cancelled),
            Err("Request cancelled".to_string())
        );
        assert_eq!(finish(method, Outcome::Answered(5u8)), Ok(5));
    }
    let handler = SseHandler::<u8>::new(&mut backends, 1, &None);
    assert_eq!(handler.call_tool_reply(Outcome::Answered(1u8)), Ok(1));
    assert_eq!(
        handler.call_tool_reply::<u8>(Outcome::Failed("e".into())),
        Err("Error: e".to_string())
    );
}

#[test]
fn silent_backend_gets_a_default() {
    let mut backends = Backends::new();
    let handler = SseHandler::<u8>::new(&mut backends, 1, &None);
    let told = handler.get_info();
    assert_eq!(told.protocol_version, "2024-11-05");
    assert_eq!(told.name, "MCP Proxy");
    assert_eq!(told.version, "0.1.0");
    assert_eq!(told.instructions, None);
    assert!(!told.capabilities.tools);
    assert!(told.capabilities.all.is_none());
    assert!(told.icons.is_none());
    assert_eq!(default_server_info::<u8>().name, "MCP Proxy");
}

#[test]
fn capabilities_are_told_in_full() {
    let mut backends = Backends::new();
    let told = SseHandler::new(&mut backends, 1, &Some(info(true, false, true))).get_info();
    assert!(told.capabilities.tools && !told.capabilities.resources && told.capabilities.prompts);
    assert_eq!(told.capabilities.all.as_deref(), Some(&"logging and more"));
    assert!(told.icons.is_none());
    let waiting = SseHandler::new_disconnected(
        &mut backends,
        "m".into(),
        ToolFilter::default(),
        info(true, true, true),
    );
    assert_eq!(
        waiting.clone().get_info().capabilities.all.as_deref(),
        Some(&"logging and more")
    );
    assert_eq!(waiting.get_info().icons.unwrap()[0].src, "i.png");
}

#[test]
fn bridge_requests_are_named() {
    let handler =
        BackendSessionHandler::new("b".into(), Some(info(true, false, false)), info(true, true, true));
    assert_eq!(handler.mcp_id(), "b");
    assert_eq!(handler.get_info().protocol_version, "2024-11-05");
    assert!(!handler.get_info().capabilities.resources);
    assert_eq!(
        handler.get_info().capabilities.all.as_deref(),
        Some(&"logging and more")
    );
    assert_eq!(handler.get_info().icons.unwrap()[0].src, "i.png");
    for (method, wire, list) in [
        (Method::ListTools, "tools/list", true),
        (Method::CallTool, "tools/call", false),
        (Method::ListResources, "resources/list", true),
        (Method::ReadResource, "resources/read", false),
        (Method::ListResourceTemplates, "resources/templates/list", true),
        (Method::ListPrompts, "prompts/list", true),
        (Method::GetPrompt, "prompts/get", false),
        (Method::Complete, "completion/complete", false),
    ] {
        let sent = handler.request(method, Ok(9u8)).unwrap();
        assert_eq!(sent.method, wire);
        assert_eq!(sent.params, Some(9));
        let unwritten = handler.request::<u8>(method, Err("e".into()));
        if list {
            assert_eq!(unwritten.unwrap().params, None);
        } else {
            assert_eq!(unwritten.unwrap_err(), "serialize error: e");
        }
    }
    assert!(!handler.on_progress());
    assert!(!handler.on_cancelled());
}

#[test]
fn bridge_replies_are_read() {
    let handler = BackendSessionHandler::new("b".into(), None, info(true, true, true));
    assert_eq!(handler.get_info().protocol_version, "2024-11-05");
    assert!(handler.get_info().capabilities.resources);
    assert_eq!(handler.reply(Outcome::Answered(Ok(1u8))), Ok(1));
    assert_eq!(
        handler.reply::<u8>(Outcome::Answered(Err("e".into()))),
        Err("deserialize error: e".to_string())
    );
    assert_eq!(
        handler.reply::<u8>(Outcome::Failed("gone".into())),
        Err("gone".to_string())
    );
    assert_eq!(
        handler.reply::<u8>(Outcome::Cancelled),
        Err("Request cancelled".to_string())
    );
}

#[test]
fn either_handler_answers_for_the_server() {
    let mut backends = Backends::new();
    let sse = SseServerHandler::Sse(SseHandler::<u8>::new(&mut backends, 1, &None));
    assert!(sse.is_backend_available(&backends, true));
    assert!(!sse.is_backend_available(&backends, false));
    assert!(sse.is_mcp_server_ready(&backends, true, true));
    assert!(sse.is_terminated_async(&backends, false, true));
    let bridge = SseServerHandler::BackendSession(BackendSessionHandler::new(
        "b".into(),
        None,
        info(true, true, true),
    ));
    assert_eq!(bridge.mcp_id(), "b");
    assert!(bridge.is_backend_available(&backends, true));
    assert!(bridge.is_mcp_server_ready(&backends, false, true));
    assert!(!bridge.is_mcp_server_ready(&backends, true, false));
    assert!(bridge.is_terminated_async(&backends, true, false));
}

#[test]
fn clones_share_their_backend() {
    let mut backends = Backends::new();
    let other = SseHandler::<u8>::new(&mut backends, 9, &None);
    let handler = SseHandler::with_tool_filter(
        &mut backends,
        1,
        &Some(info(true, true, true)),
        "m".into(),
        deny("rm"),
    );
    let clone = handler.clone();
    assert_eq!(clone.mcp_id(), "m");
    assert_eq!(clone.get_info().name, "srv");
    assert_eq!(clone.backend(&backends), Some(1));
    handler.swap_backend(&mut backends, None);
    assert_eq!(clone.backend(&backends), None);
    assert_eq!(failed(clone.list_tools(&backends, false)), RECONNECTING);
    clone.swap_backend(&mut backends, Some(2));
    assert_eq!(handler.backend(&backends), Some(2));
    assert!(matches!(handler.list_tools(&backends, false), Gate::Forward));
    assert_eq!(
        tool_error(clone.call_tool(&backends, "rm", false)),
        "Tool 'rm' is not allowed by filter configuration"
    );
    assert_eq!(other.backend(&backends), Some(9));
    let server = SseServerHandler::Sse(handler);
    let copy = server.clone();
    clone.swap_backend(&mut backends, None);
    assert!(!server.is_backend_available(&backends, true));
    assert!(!copy.is_backend_available(&backends, true));
}
