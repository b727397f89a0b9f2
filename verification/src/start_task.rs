//! Starting a service: which protocol its backend speaks, which server is put
//! in front of it, and what is registered once it runs.

use vstd::prelude::*;

use crate::client_config::{
    bearer, client_headers, client_sends_what_was_asked_for, configured_token_is_sent_whole,
    detection_headers, headers_are_sent_whole, is_authorization, is_marked, merged_headers,
    normalize_headers, normalized, opt_bearer, stream_client_config, McpClientConfig,
};
use crate::launch::{copy_list, texts_or_none, McpServerCommandConfig};
use crate::model::{McpProtocol, McpType, ServiceStatus};
use crate::server_builder::{BackendConfig, BridgeRef, SseServerBuilder};
use crate::table::{distinct_keys, entries_or_none, Table};
use crate::text::{
    concat2, concat3, copy_opt, frames, opt_text, texts, texts_are_those_of_the_strings,
};

verus! {

/// A service behind a URL.
#[derive(Clone, Debug)]
pub struct McpServerUrlConfig {
    pub url: String,
    /// The name of the protocol that the service speaks, where it is given.
    pub protocol_name: Option<String>,
    pub headers: Option<Table<String>>,
    pub auth_token: Option<String>,
}

/// How a service is reached.
#[derive(Clone, Debug)]
pub enum McpServerConfig {
    Command(McpServerCommandConfig),
    Url(McpServerUrlConfig),
}

/// How clients reach a service.
#[derive(Clone, Debug)]
pub enum Frontend {
    /// Over server-sent events, on these paths.
    Sse { sse_path: String, message_path: String },
    /// Over streamable HTTP.
    Stream,
    /// Over standard input and output.
    Stdio,
}

/// Where clients reach a service.
#[derive(Clone, Debug)]
pub struct ServicePath {
    pub mcp_id: String,
    pub base_path: String,
    pub frontend: Frontend,
}

/// How the protocol of a backend is found.
#[derive(Debug)]
pub enum ProtocolChoice {
    /// It is known.
    Known(McpProtocol),
    /// It is detected at this URL, with these headers.
    Detect { url: String, headers: Option<Table<String>>, protocol_name: Option<String> },
}

fn copy_table(t: &Option<Table<String>>) -> (r: Option<Table<String>>)
    ensures
        r is Some == t is Some,
        entries_or_none(r) == entries_or_none(*t),
{
    match t {
        Some(table) => Some(table.clone()),
        None => None,
    }
}

/// How the protocol of a backend is found, where `parsed` is the protocol that
/// its configuration names, if it names one that there is. A command speaks
/// over standard input and output; a URL that does not say is asked.
pub fn backend_protocol(config: &McpServerConfig, parsed: Option<McpProtocol>) -> (r:
    ProtocolChoice)
    ensures
        match config {
            McpServerConfig::Command(_) => r == ProtocolChoice::Known(McpProtocol::Stdio),
            McpServerConfig::Url(u) => if u.protocol_name is Some && parsed is Some {
                r == ProtocolChoice::Known(parsed->0)
            } else {
                &&& r is Detect
                &&& r->url@ == u.url@
                &&& r->protocol_name == u.protocol_name
                &&& r->headers is Some == (entries_or_none(u.headers).len() > 0
                    || u.auth_token is Some)
                &&& r->headers is Some ==> r->headers->0@ == client_headers(
                    entries_or_none(u.headers),
                    opt_bearer(u.auth_token),
                )
            },
        },
{
    match config {
        McpServerConfig::Command(_) => ProtocolChoice::Known(McpProtocol::Stdio),
        McpServerConfig::Url(u) => {
            if u.protocol_name.is_some() {
                if let Some(protocol) = parsed {
                    return ProtocolChoice::Known(protocol);
                }
            }
            ProtocolChoice::Detect {
                url: u.url.clone(),
                headers: detection_headers(&u.headers, &u.auth_token),
                protocol_name: copy_opt(&u.protocol_name),
            }
        },
    }
}

/// The message when a protocol could not be detected.
pub open spec fn detection_failure(protocol_name: Option<String>, reason: Seq<char>) -> Seq<char> {
    match protocol_name {
        Some(name) => "Protocol type '"@ + name@ + "' unrecognized and auto-detection failed: "@
            + reason,
        None => "Auto-detection failed: "@ + reason,
    }
}

/// The protocol of a backend that was asked for it, or the message when it
/// could not be detected.
pub fn detected_protocol(
    protocol_name: &Option<String>,
    outcome: Result<McpProtocol, String>,
) -> (r: Result<McpProtocol, String>)
    ensures
        match outcome {
            Ok(protocol) => r == Ok::<McpProtocol, String>(protocol),
            Err(reason) => r is Err && r->Err_0@ == detection_failure(*protocol_name, reason@),
        },
{
    match outcome {
        Ok(protocol) => Ok(protocol),
        Err(reason) => {
            let intro: String = match protocol_name {
                Some(name) => concat3(
                    "Protocol type '",
                    name.as_str(),
                    "' unrecognized and auto-detection failed: ",
                ),
                None => "Auto-detection failed: ".to_owned(),
            };
            Err(concat2(intro.as_str(), reason.as_str()))
        },
    }
}

/// The connection to a backend that speaks streamable HTTP. Only a URL has one.
pub fn connect_stream_backend(config: &McpServerConfig) -> (r: Result<McpClientConfig, String>)
    ensures
        match config {
            McpServerConfig::Url(u) => {
                &&& r is Ok
                &&& r->Ok_0.url@ == u.url@
                &&& r->Ok_0.headers@ == client_headers(
                    entries_or_none(u.headers),
                    opt_bearer(u.auth_token),
                )
                &&& r->Ok_0.connect_timeout is None
                &&& r->Ok_0.read_timeout is None
            },
            McpServerConfig::Command(_) => r is Err && r->Err_0@
                == "Stream backend requires URL-based config"@,
        },
{
    match config {
        McpServerConfig::Url(u) => Ok(
            stream_client_config(u.url.as_str(), &u.headers, &u.auth_token),
        ),
        McpServerConfig::Command(_) => Err("Stream backend requires URL-based config".to_owned()),
    }
}

/// The backend is this command.
pub open spec fn runs_command(backend: BackendConfig, config: McpServerCommandConfig) -> bool {
    match backend {
        BackendConfig::Stdio { command, args, env } => {
            &&& command@ == config.command@
            &&& args is Some == config.args is Some
            &&& texts_or_none(args) == texts_or_none(config.args)
            &&& env is Some == config.env is Some
            &&& entries_or_none(env) == entries_or_none(config.env)
        },
        _ => false,
    }
}

/// The backend is this URL, with these headers as they are sent.
pub open spec fn reaches_url(
    url: String,
    headers: Option<Table<String>>,
    config: McpServerUrlConfig,
) -> bool {
    &&& url@ == config.url@
    &&& headers is Some == config.headers is Some
    &&& headers is Some ==> headers->0.entries() == normalized(config.headers->0.entries())
}

/// The backend is this URL, with these headers as they are sent, and its token
/// over them. Where neither is given, there are none.
pub open spec fn reaches_url_with_token(
    url: String,
    headers: Option<Table<String>>,
    config: McpServerUrlConfig,
) -> bool {
    &&& url@ == config.url@
    &&& headers is Some == (config.headers is Some || config.auth_token is Some)
    &&& headers is Some ==> headers->0@ == client_headers(
        entries_or_none(config.headers),
        opt_bearer(config.auth_token),
    )
}

/// The backend of a server for server-sent events.
pub fn build_sse_backend_config(
    mcp_config: &McpServerConfig,
    backend_protocol: McpProtocol,
) -> (r: Result<BackendConfig, String>)
    ensures
        match mcp_config {
            McpServerConfig::Command(command) => r is Ok && runs_command(r->Ok_0, *command),
            McpServerConfig::Url(u) => match backend_protocol {
                McpProtocol::Sse => {
                    &&& r is Ok
                    &&& r->Ok_0 is SseUrl
                    &&& reaches_url_with_token(r->Ok_0->url, r->Ok_0->headers, *u)
                },
                McpProtocol::Stdio => r is Err && r->Err_0@
                    == "URL-based MCP service cannot use Stdio protocol"@,
                McpProtocol::Stream => r is Err && r->Err_0@
                    == "Stream backend should be handled via connect_stream_backend(), not build_sse_backend_config()"@,
            },
        },
{
    match mcp_config {
        McpServerConfig::Command(command) => Ok(
            BackendConfig::Stdio {
                command: command.command.clone(),
                args: copy_list(&command.args),
                env: copy_table(&command.env),
            },
        ),
        McpServerConfig::Url(u) => match backend_protocol {
            McpProtocol::Stdio => Err(
                "URL-based MCP service cannot use Stdio protocol".to_owned(),
            ),
            McpProtocol::Sse => Ok(
                BackendConfig::SseUrl {
                    url: u.url.clone(),
                    headers: merged_headers(&u.headers, &u.auth_token),
                },
            ),
            McpProtocol::Stream => Err(
                "Stream backend should be handled via connect_stream_backend(), not build_sse_backend_config()".to_owned(),
            ),
        },
    }
}

/// The backend of a server for streamable HTTP.
#[derive(Clone, Debug)]
pub enum StreamBackendConfig {
    /// A child process.
    Stdio { command: String, args: Option<Vec<String>>, env: Option<Table<String>> },
    /// A URL.
    Url { url: String, headers: Option<Table<String>> },
}

/// The backend is this command.
pub open spec fn stream_runs_command(
    backend: StreamBackendConfig,
    config: McpServerCommandConfig,
) -> bool {
    match backend {
        StreamBackendConfig::Stdio { command, args, env } => {
            &&& command@ == config.command@
            &&& args is Some == config.args is Some
            &&& texts_or_none(args) == texts_or_none(config.args)
            &&& env is Some == config.env is Some
            &&& entries_or_none(env) == entries_or_none(config.env)
        },
        _ => false,
    }
}

/// The backend of a server for streamable HTTP.
pub fn build_stream_backend_config(
    mcp_config: &McpServerConfig,
    backend_protocol: McpProtocol,
) -> (r: Result<StreamBackendConfig, String>)
    ensures
        match mcp_config {
            McpServerConfig::Command(command) => r is Ok && stream_runs_command(r->Ok_0, *command),
            McpServerConfig::Url(u) => match backend_protocol {
                McpProtocol::Stream => {
                    &&& r is Ok
                    &&& r->Ok_0 is Url
                    &&& reaches_url(r->Ok_0->url, r->Ok_0->headers, *u)
                },
                McpProtocol::Stdio => r is Err && r->Err_0@
                    == "URL-based MCP service cannot use Stdio protocol"@,
                McpProtocol::Sse => r is Err && r->Err_0@
                    == "SSE backend with Streamable HTTP frontend is not yet supported. Please use SSE frontend or configure a Streamable HTTP backend."@,
            },
        },
{
    match mcp_config {
        McpServerConfig::Command(command) => Ok(
            StreamBackendConfig::Stdio {
                command: command.command.clone(),
                args: copy_list(&command.args),
                env: copy_table(&command.env),
            },
        ),
        McpServerConfig::Url(u) => match backend_protocol {
            McpProtocol::Stdio => Err(
                "URL-based MCP service cannot use Stdio protocol".to_owned(),
            ),
            McpProtocol::Sse => Err(
                "SSE backend with Streamable HTTP frontend is not yet supported. Please use SSE frontend or configure a Streamable HTTP backend.".to_owned(),
            ),
            McpProtocol::Stream => Ok(
                StreamBackendConfig::Url {
                    url: u.url.clone(),
                    headers: normalize_headers(&u.headers),
                },
            ),
        },
    }
}

/// A server for streamable HTTP that is to be built.
#[derive(Clone, Debug)]
pub struct StreamServerPlan {
    pub backend: StreamBackendConfig,
    pub mcp_id: String,
    /// Whether a client has to initialize its session first.
    pub stateful: bool,
}

/// The server that is put in front of a backend.
pub enum ServerPlan {
    /// One for server-sent events. First connect to the backend, then see
    /// [`bridge_server`].
    Bridge(McpClientConfig),
    /// One for server-sent events.
    Sse(SseServerBuilder),
    /// One for streamable HTTP.
    Stream(StreamServerPlan),
}

/// How often the server of a service sends a sign of life, in seconds. A
/// one-shot is kept awake.
pub open spec fn keep_alive_of(mcp_type: McpType) -> u64 {
    match mcp_type {
        McpType::OneShot => 5,
        McpType::Persistent => 15,
    }
}

/// The server is the one for this service: it has its name and its paths, and
/// serves a one-shot without sessions that have to be initialized.
pub open spec fn serves(server: SseServerBuilder, path: ServicePath, mcp_type: McpType) -> bool {
    &&& server.server_config.mcp_id is Some
    &&& server.server_config.mcp_id->0@ == path.mcp_id@
    &&& server.server_config.sse_path@ == path.frontend->sse_path@
    &&& server.server_config.post_path@ == path.frontend->message_path@
    &&& server.server_config.tool_filter is None
    &&& server.server_config.keep_alive_secs == keep_alive_of(mcp_type)
    &&& server.server_config.stateful == !(mcp_type is OneShot)
}

fn sse_server(
    backend: BackendConfig,
    mcp_id: &String,
    sse_path: &String,
    message_path: &String,
    mcp_type: McpType,
) -> (r: SseServerBuilder)
    ensures
        r.backend_config == backend,
        r.server_config.mcp_id is Some,
        r.server_config.mcp_id->0@ == mcp_id@,
        r.server_config.sse_path@ == sse_path@,
        r.server_config.post_path@ == message_path@,
        r.server_config.tool_filter is None,
        r.server_config.keep_alive_secs == keep_alive_of(mcp_type),
        r.server_config.stateful == !(mcp_type is OneShot),
{
    let one_shot: bool = match mcp_type {
        McpType::OneShot => true,
        McpType::Persistent => false,
    };
    let keep_alive_secs: u64 = if one_shot {
        5
    } else {
        15
    };
    SseServerBuilder::new(backend).mcp_id(mcp_id.clone()).sse_path(sse_path.clone()).post_path(
        message_path.clone(),
    ).keep_alive(keep_alive_secs).stateful(!one_shot)
}

/// The message when clients are to reach a service over standard input and
/// output.
pub open spec fn stdio_frontend_refusal() -> Seq<char> {
    "Client protocol cannot be Stdio. McpRouterPath::new does not support creating Stdio protocol router paths"@
}

fn stdio_frontend_message() -> (r: String)
    ensures
        r@ == stdio_frontend_refusal(),
{
    "Client protocol cannot be Stdio. McpRouterPath::new does not support creating Stdio protocol router paths".to_owned()
}

/// What is put in front of a backend which speaks `backend_protocol`: a server,
/// or this message says why there is none.
pub open spec fn is_plan(
    r: Result<ServerPlan, String>,
    mcp_config: McpServerConfig,
    path: ServicePath,
    mcp_type: McpType,
    backend_protocol: McpProtocol,
) -> bool {
    match path.frontend {
        Frontend::Sse { .. } => match (mcp_config, backend_protocol) {
            (McpServerConfig::Url(u), McpProtocol::Stream) => {
                &&& r is Ok
                &&& r->Ok_0 is Bridge
                &&& r->Ok_0->Bridge_0.url@ == u.url@
                &&& r->Ok_0->Bridge_0.headers@ == client_headers(
                    entries_or_none(u.headers),
                    opt_bearer(u.auth_token),
                )
                &&& r->Ok_0->Bridge_0.connect_timeout is None
                &&& r->Ok_0->Bridge_0.read_timeout is None
            },
            (McpServerConfig::Url(u), McpProtocol::Sse) => {
                &&& r is Ok
                &&& r->Ok_0 is Sse
                &&& serves(r->Ok_0->Sse_0, path, mcp_type)
                &&& r->Ok_0->Sse_0.backend_config is SseUrl
                &&& reaches_url_with_token(
                    r->Ok_0->Sse_0.backend_config->url,
                    r->Ok_0->Sse_0.backend_config->headers,
                    u,
                )
            },
            (McpServerConfig::Url(_), McpProtocol::Stdio) => r is Err && r->Err_0@
                == "URL-based MCP service cannot use Stdio protocol"@,
            (McpServerConfig::Command(_), McpProtocol::Stream) => r is Err && r->Err_0@
                == "Stream backend requires URL-based config"@,
            (McpServerConfig::Command(command), _) => {
                &&& r is Ok
                &&& r->Ok_0 is Sse
                &&& serves(r->Ok_0->Sse_0, path, mcp_type)
                &&& runs_command(r->Ok_0->Sse_0.backend_config, command)
            },
        },
        Frontend::Stream => match (mcp_config, backend_protocol) {
            (McpServerConfig::Url(u), McpProtocol::Stream) => {
                &&& r is Ok
                &&& r->Ok_0 is Stream
                &&& r->Ok_0->Stream_0.mcp_id@ == path.mcp_id@
                &&& !r->Ok_0->Stream_0.stateful
                &&& r->Ok_0->Stream_0.backend is Url
                &&& reaches_url(
                    r->Ok_0->Stream_0.backend->url,
                    r->Ok_0->Stream_0.backend->headers,
                    u,
                )
            },
            (McpServerConfig::Url(_), McpProtocol::Sse) => r is Err && r->Err_0@
                == "SSE backend with Streamable HTTP frontend is not yet supported. Please use SSE frontend or configure a Streamable HTTP backend."@,
            (McpServerConfig::Url(_), McpProtocol::Stdio) => r is Err && r->Err_0@
                == "URL-based MCP service cannot use Stdio protocol"@,
            (McpServerConfig::Command(command), _) => {
                &&& r is Ok
                &&& r->Ok_0 is Stream
                &&& r->Ok_0->Stream_0.mcp_id@ == path.mcp_id@
                &&& !r->Ok_0->Stream_0.stateful
                &&& stream_runs_command(r->Ok_0->Stream_0.backend, command)
            },
        },
        Frontend::Stdio => r is Err && r->Err_0@ == stdio_frontend_refusal(),
    }
}

/// The server that is put in front of a backend which speaks
/// `backend_protocol`. A backend for streamable HTTP is put behind a server for
/// server-sent events by a bridge.
pub fn plan_server(
    mcp_config: &McpServerConfig,
    path: &ServicePath,
    mcp_type: McpType,
    backend_protocol: McpProtocol,
) -> (r: Result<ServerPlan, String>)
    ensures
        is_plan(r, *mcp_config, *path, mcp_type, backend_protocol),
{
    match &path.frontend {
        Frontend::Sse { sse_path, message_path } => match backend_protocol {
            McpProtocol::Stream => match connect_stream_backend(mcp_config) {
                Ok(client) => Ok(ServerPlan::Bridge(client)),
                Err(message) => Err(message),
            },
            _ => match build_sse_backend_config(mcp_config, backend_protocol) {
                Ok(backend) => Ok(
                    ServerPlan::Sse(
                        sse_server(backend, &path.mcp_id, sse_path, message_path, mcp_type),
                    ),
                ),
                Err(message) => Err(message),
            },
        },
        Frontend::Stream => match build_stream_backend_config(mcp_config, backend_protocol) {
            Ok(backend) => Ok(
                ServerPlan::Stream(
                    StreamServerPlan { backend, mcp_id: path.mcp_id.clone(), stateful: false },
                ),
            ),
            Err(message) => Err(message),
        },
        Frontend::Stdio => Err(stdio_frontend_message()),
    }
}

/// The server for server-sent events in front of a bridge.
pub fn bridge_server(bridge: BridgeRef, path: &ServicePath, mcp_type: McpType) -> (r: Option<
    SseServerBuilder,
>)
    ensures
        r is Some == path.frontend is Sse,
        r is Some ==> serves(r->0, *path, mcp_type) && r->0.backend_config
            == BackendConfig::BackendBridge(bridge),
{
    match &path.frontend {
        Frontend::Sse { sse_path, message_path } => Some(
            sse_server(
                BackendConfig::BackendBridge(bridge),
                &path.mcp_id,
                sse_path,
                message_path,
                mcp_type,
            ),
        ),
        _ => None,
    }
}

/// The message when the server of a service could not be built.
pub open spec fn build_failure(path: ServicePath, mcp_type: McpType) -> Seq<char> {
    (if path.frontend is Sse {
        "SSE server build failed - MCP ID: "@
    } else {
        "Stream server build failed - MCP ID: "@
    }) + path.mcp_id@ + ", type: "@ + mcp_type.name_text()
}

/// What is done once the server of a service has been built.
#[derive(Clone, Debug)]
pub enum RegistrationStep {
    /// The service is known, with this status.
    AddService { mcp_id: String, mcp_type: McpType, status: ServiceStatus },
    /// Its configuration can be used to restart it.
    CacheConfig { mcp_id: String },
    /// Requests to its base path are answered too.
    AddFallback,
    /// Requests under this path find it.
    RegisterRoute { base_path: String },
    /// The time of its start counts.
    RecordRestart { mcp_id: String },
}

/// The contents of a [`RegistrationStep`].
pub enum RegistrationView {
    AddService { mcp_id: Seq<char>, mcp_type: McpType, ready: bool },
    CacheConfig { mcp_id: Seq<char> },
    AddFallback,
    RegisterRoute { base_path: Seq<char> },
    RecordRestart { mcp_id: Seq<char> },
}

impl View for RegistrationStep {
    type V = RegistrationView;

    open spec fn view(&self) -> RegistrationView {
        match self {
            RegistrationStep::AddService { mcp_id, mcp_type, status } => {
                RegistrationView::AddService {
                    mcp_id: mcp_id@,
                    mcp_type: *mcp_type,
                    ready: status is Ready,
                }
            },
            RegistrationStep::CacheConfig { mcp_id } => RegistrationView::CacheConfig {
                mcp_id: mcp_id@,
            },
            RegistrationStep::AddFallback => RegistrationView::AddFallback,
            RegistrationStep::RegisterRoute { base_path } => RegistrationView::RegisterRoute {
                base_path: base_path@,
            },
            RegistrationStep::RecordRestart { mcp_id } => RegistrationView::RecordRestart {
                mcp_id: mcp_id@,
            },
        }
    }
}

/// The contents of a list of steps.
pub open spec fn step_views(steps: Seq<RegistrationStep>) -> Seq<RegistrationView> {
    steps.map_values(|step: RegistrationStep| step@)
}

/// What is done once the server of a service has been built, in this order.
pub open spec fn registration(path: ServicePath, mcp_type: McpType) -> Seq<RegistrationView> {
    let mcp_id = path.mcp_id@;
    let known = seq![
        RegistrationView::AddService { mcp_id, mcp_type, ready: true },
        RegistrationView::CacheConfig { mcp_id },
    ];
    let found = seq![
        RegistrationView::RegisterRoute { base_path: path.base_path@ },
        RegistrationView::RecordRestart { mcp_id },
    ];
    if path.frontend is Sse {
        known.push(RegistrationView::AddFallback) + found
    } else {
        known + found
    }
}

/// What is done once the server of a service has been built, or the message
/// when it could not be built. Nothing is registered then. For clients on
/// standard input and output no server is ever built.
pub fn after_build(path: &ServicePath, mcp_type: McpType, built: bool) -> (r: Result<
    Vec<RegistrationStep>,
    String,
>)
    ensures
        r is Ok == (built && path.frontend !is Stdio),
        r is Ok ==> step_views(r->Ok_0@) == registration(*path, mcp_type),
        r is Err ==> r->Err_0@ == (if path.frontend is Stdio {
            stdio_frontend_refusal()
        } else {
            build_failure(*path, mcp_type)
        }),
{
    let sse: bool = match path.frontend {
        Frontend::Sse { .. } => true,
        Frontend::Stream => false,
        Frontend::Stdio => {
            return Err(stdio_frontend_message());
        },
    };
    if built {
        let mut steps: Vec<RegistrationStep> = Vec::new();
        steps.push(
            RegistrationStep::AddService {
                mcp_id: path.mcp_id.clone(),
                mcp_type,
                status: ServiceStatus::Ready,
            },
        );
        steps.push(RegistrationStep::CacheConfig { mcp_id: path.mcp_id.clone() });
        if sse {
            steps.push(RegistrationStep::AddFallback);
        }
        steps.push(RegistrationStep::RegisterRoute { base_path: path.base_path.clone() });
        steps.push(RegistrationStep::RecordRestart { mcp_id: path.mcp_id.clone() });
        assert(step_views(steps@) =~= registration(*path, mcp_type));
        Ok(steps)
    } else {
        let mut message: String = if sse {
            "SSE server build failed - MCP ID: ".to_owned()
        } else {
            "Stream server build failed - MCP ID: ".to_owned()
        };
        message.append(path.mcp_id.as_str());
        message.append(", type: ");
        message.append(mcp_type.name());
        Err(message)
    }
}

/// Every step of a registration is taken once. The service is known before
/// requests can find it, and the time of its start counts only after that.
/// Requests to the base path itself are answered where clients use server-sent
/// events.
pub proof fn registration_is_in_order(path: ServicePath, mcp_type: McpType)
    ensures
        ({
            let steps = registration(path, mcp_type);
            let n = steps.len();
            &&& steps.no_duplicates()
            &&& steps[0] == RegistrationView::AddService {
                mcp_id: path.mcp_id@,
                mcp_type,
                ready: true,
            }
            &&& steps[1] == RegistrationView::CacheConfig { mcp_id: path.mcp_id@ }
            &&& steps[n - 2] == RegistrationView::RegisterRoute { base_path: path.base_path@ }
            &&& steps[n - 1] == RegistrationView::RecordRestart { mcp_id: path.mcp_id@ }
            &&& steps.contains(RegistrationView::AddFallback) <==> path.frontend is Sse
        }),
{
    let steps = registration(path, mcp_type);
    if path.frontend is Sse {
        assert(steps[2] == RegistrationView::AddFallback);
    }
}

/// The token of a backend for server-sent events is sent to it, whatever its
/// headers say, as it is sent to one for streamable HTTP.
pub proof fn token_is_sent_to_an_sse_backend(
    url: String,
    headers: Option<Table<String>>,
    config: McpServerUrlConfig,
)
    requires
        reaches_url_with_token(url, headers, config),
        config.auth_token is Some,
    ensures
        headers is Some,
        headers->0@.contains_key("Authorization"@),
        headers->0@["Authorization"@] == bearer(config.auth_token->0@),
{
}

/// The arguments of a process are those of a configuration, one for one.
pub open spec fn same_args(args: Option<Vec<String>>, configured: Option<Vec<String>>) -> bool {
    &&& args is Some <==> configured is Some
    &&& args is Some ==> args->0@.len() == configured->0@.len() && forall|i: int|
        0 <= i < configured->0@.len() ==> (#[trigger] args->0@[i])@ == configured->0@[i]@
}

/// The variables of a process are those of a configuration, one for one.
pub open spec fn same_env(env: Option<Table<String>>, configured: Option<Table<String>>) -> bool {
    &&& env is Some <==> configured is Some
    &&& env is Some ==> env->0.entries() == configured->0.entries()
}

proof fn lemma_same_args(args: Option<Vec<String>>, configured: Option<Vec<String>>)
    requires
        args is Some == configured is Some,
        texts_or_none(args) == texts_or_none(configured),
    ensures
        same_args(args, configured),
{
    if args is Some {
        texts_are_those_of_the_strings(args->0@, args->0@[0]);
        texts_are_those_of_the_strings(configured->0@, args->0@[0]);
        assert forall|i: int| 0 <= i < configured->0@.len() implies (#[trigger] args->0@[i])@
            == configured->0@[i]@ by {
            assert(texts(args->0@)[i] == texts(configured->0@)[i]);
        }
    }
}

/// A server in front of a command runs exactly the command that is configured,
/// with all its arguments and all its variables, whichever way clients reach it.
/// Only a command that is said to speak streamable HTTP cannot be put behind
/// server-sent events.
pub proof fn command_is_run_as_configured(
    r: Result<ServerPlan, String>,
    command: McpServerCommandConfig,
    path: ServicePath,
    mcp_type: McpType,
    protocol: McpProtocol,
)
    requires
        is_plan(r, McpServerConfig::Command(command), path, mcp_type, protocol),
        path.frontend !is Stdio,
    ensures
        r is Ok <==> !(path.frontend is Sse && protocol is Stream),
        r is Ok && path.frontend is Sse ==> {
            &&& r->Ok_0 is Sse
            &&& r->Ok_0->Sse_0.backend_config is Stdio
            &&& r->Ok_0->Sse_0.backend_config->command@ == command.command@
            &&& same_args(r->Ok_0->Sse_0.backend_config->args, command.args)
            &&& same_env(r->Ok_0->Sse_0.backend_config->env, command.env)
        },
        path.frontend is Stream ==> {
            &&& r->Ok_0 is Stream
            &&& r->Ok_0->Stream_0.backend is Stdio
            &&& r->Ok_0->Stream_0.backend->command@ == command.command@
            &&& same_args(r->Ok_0->Stream_0.backend->args, command.args)
            &&& same_env(r->Ok_0->Stream_0.backend->env, command.env)
        },
        r is Err ==> r->Err_0@ == "Stream backend requires URL-based config"@,
{
    if r is Ok {
        if path.frontend is Sse {
            lemma_same_args(r->Ok_0->Sse_0.backend_config->args, command.args);
        } else {
            lemma_same_args(r->Ok_0->Stream_0.backend->args, command.args);
        }
    }
}

/// Commands that differ in their name, their arguments or their variables are
/// never put behind the same server.
pub proof fn different_commands_are_planned_differently(
    r: Result<ServerPlan, String>,
    a: McpServerCommandConfig,
    b: McpServerCommandConfig,
    path: ServicePath,
    mcp_type: McpType,
    protocol: McpProtocol,
)
    requires
        is_plan(r, McpServerConfig::Command(a), path, mcp_type, protocol),
        is_plan(r, McpServerConfig::Command(b), path, mcp_type, protocol),
        r is Ok,
    ensures
        a.command@ == b.command@,
        same_args(a.args, b.args),
        same_env(a.env, b.env),
{
    command_is_run_as_configured(r, a, path, mcp_type, protocol);
    command_is_run_as_configured(r, b, path, mcp_type, protocol);
    let args = if path.frontend is Sse {
        r->Ok_0->Sse_0.backend_config->args
    } else {
        r->Ok_0->Stream_0.backend->args
    };
    assert(same_args(args, a.args) && same_args(args, b.args));
    if a.args is Some {
        assert forall|i: int| 0 <= i < b.args->0@.len() implies (#[trigger] a.args->0@[i])@
            == b.args->0@[i]@ by {
            assert(args->0@[i]@ == a.args->0@[i]@);
            assert(args->0@[i]@ == b.args->0@[i]@);
        }
    }
}

/// A server for server-sent events has the name and the paths of its service. A
/// one-shot gets a sign of life every five seconds and has no sessions to
/// initialize; a persistent service gets one every fifteen and has them.
pub proof fn server_is_set_up_for_its_service(
    server: SseServerBuilder,
    sse_path: String,
    message_path: String,
    mcp_id: String,
    base_path: String,
    mcp_type: McpType,
)
    requires
        serves(
            server,
            ServicePath {
                mcp_id,
                base_path,
                frontend: Frontend::Sse { sse_path, message_path },
            },
            mcp_type,
        ),
    ensures
        opt_text(server.server_config.mcp_id) == Some(mcp_id@),
        server.server_config.sse_path@ == sse_path@,
        server.server_config.post_path@ == message_path@,
        server.server_config.tool_filter is None,
        mcp_type is OneShot ==> server.server_config.keep_alive_secs == 5
            && !server.server_config.stateful,
        mcp_type is Persistent ==> server.server_config.keep_alive_secs == 15
            && server.server_config.stateful,
{
}

/// A planned server serves the service that it is planned for.
pub proof fn planned_server_is_for_its_service(
    r: Result<ServerPlan, String>,
    config: McpServerConfig,
    path: ServicePath,
    mcp_type: McpType,
    protocol: McpProtocol,
)
    requires
        is_plan(r, config, path, mcp_type, protocol),
        r is Ok,
    ensures
        r->Ok_0 is Sse ==> path.frontend is Sse && serves(r->Ok_0->Sse_0, path, mcp_type),
        r->Ok_0 is Stream ==> path.frontend is Stream && r->Ok_0->Stream_0.mcp_id@
            == path.mcp_id@ && !r->Ok_0->Stream_0.stateful,
        r->Ok_0 is Bridge ==> path.frontend is Sse && config is Url && protocol is Stream,
{
}

/// Headers are those of a configuration, one for one, each with its whole value;
/// the value for authorization is marked as a token.
pub open spec fn same_headers(headers: Seq<(Seq<char>, Seq<char>)>, configured: Seq<
    (Seq<char>, Seq<char>),
>) -> bool {
    &&& headers.len() == configured.len()
    &&& forall|i: int|
        0 <= i < configured.len() ==> {
            &&& (#[trigger] headers[i]).0 == configured[i].0
            &&& if is_authorization(configured[i].0) && !is_marked(configured[i].1) {
                is_marked(headers[i].1) && headers[i].1.skip(7) == configured[i].1
            } else {
                headers[i].1 == configured[i].1
            }
        }
}

/// A service behind a URL is put behind a server that fits its protocol, which
/// reaches that URL. A server for streamable HTTP sends the headers that are
/// configured. One for server-sent events also sends the token, whole and
/// marked, in place of what the headers say for it. A URL does not speak over
/// standard input and output, and a server for streamable HTTP takes no other
/// protocol.
pub proof fn url_is_reached_as_configured(
    r: Result<ServerPlan, String>,
    u: McpServerUrlConfig,
    path: ServicePath,
    mcp_type: McpType,
    protocol: McpProtocol,
)
    requires
        is_plan(r, McpServerConfig::Url(u), path, mcp_type, protocol),
        path.frontend !is Stdio,
    ensures
        r is Ok <==> protocol is Stream || (protocol is Sse && path.frontend is Sse),
        r is Err && protocol is Stdio ==> r->Err_0@
            == "URL-based MCP service cannot use Stdio protocol"@,
        r is Err && protocol is Sse ==> r->Err_0@
            == "SSE backend with Streamable HTTP frontend is not yet supported. Please use SSE frontend or configure a Streamable HTTP backend."@,
        path.frontend is Stream && r is Ok ==> {
            &&& r->Ok_0 is Stream
            &&& r->Ok_0->Stream_0.backend is Url
            &&& r->Ok_0->Stream_0.backend->url@ == u.url@
            &&& r->Ok_0->Stream_0.backend->headers is Some <==> u.headers is Some
            &&& u.headers is Some ==> same_headers(
                r->Ok_0->Stream_0.backend->headers->0.entries(),
                u.headers->0.entries(),
            )
        },
        path.frontend is Sse && protocol is Stream ==> {
            &&& r->Ok_0 is Bridge
            &&& r->Ok_0->Bridge_0.url@ == u.url@
            &&& r->Ok_0->Bridge_0.connect_timeout is None
            &&& r->Ok_0->Bridge_0.read_timeout is None
            &&& u.auth_token is Some ==> sends_token(r->Ok_0->Bridge_0.headers@, u.auth_token->0@)
            &&& u.headers is Some && distinct_keys(u.headers->0.entries()) ==> sends_headers(
                r->Ok_0->Bridge_0.headers@,
                u.headers->0.entries(),
                u.auth_token is Some,
            )
        },
        path.frontend is Sse && protocol is Sse ==> {
            &&& r->Ok_0 is Sse
            &&& r->Ok_0->Sse_0.backend_config is SseUrl
            &&& r->Ok_0->Sse_0.backend_config->url@ == u.url@
            &&& r->Ok_0->Sse_0.backend_config->headers is Some <==> u.headers is Some
                || u.auth_token is Some
            &&& u.auth_token is Some ==> sends_token(
                r->Ok_0->Sse_0.backend_config->headers->0@,
                u.auth_token->0@,
            )
            &&& u.headers is Some && distinct_keys(u.headers->0.entries()) ==> sends_headers(
                r->Ok_0->Sse_0.backend_config->headers->0@,
                u.headers->0.entries(),
                u.auth_token is Some,
            )
        },
{
    if path.frontend is Stream && r is Ok {
        if u.headers is Some {
            lemma_same_headers(u.headers->0.entries());
        }
    } else {
        lemma_sends(u);
    }
}

/// A token is sent under `Authorization`, whole and marked.
pub open spec fn sends_token(headers: Map<Seq<char>, Seq<char>>, token: Seq<char>) -> bool {
    &&& headers.contains_key("Authorization"@)
    &&& if is_marked(token) {
        headers["Authorization"@] == token
    } else {
        is_marked(headers["Authorization"@]) && headers["Authorization"@].skip(7) == token
    }
}

/// Every header of a configuration is sent, with its whole value, and the value
/// for authorization is marked as a token. Where there is a token, that is sent
/// under `Authorization`.
pub open spec fn sends_headers(
    headers: Map<Seq<char>, Seq<char>>,
    configured: Seq<(Seq<char>, Seq<char>)>,
    token: bool,
) -> bool {
    forall|i: int|
        0 <= i < configured.len() && !(token && (#[trigger] configured[i]).0 == "Authorization"@)
            ==> {
            &&& headers.contains_key(configured[i].0)
            &&& if is_authorization(configured[i].0) && !is_marked(configured[i].1) {
                is_marked(headers[configured[i].0]) && headers[configured[i].0].skip(7)
                    == configured[i].1
            } else {
                headers[configured[i].0] == configured[i].1
            }
        }
}

proof fn lemma_same_headers(configured: Seq<(Seq<char>, Seq<char>)>)
    ensures
        same_headers(normalized(configured), configured),
{
    assert(normalized(configured).len() == configured.len());
    assert forall|i: int| 0 <= i < configured.len() implies {
        &&& (#[trigger] normalized(configured)[i]).0 == configured[i].0
        &&& if is_authorization(configured[i].0) && !is_marked(configured[i].1) {
            is_marked(normalized(configured)[i].1) && normalized(configured)[i].1.skip(7)
                == configured[i].1
        } else {
            normalized(configured)[i].1 == configured[i].1
        }
    } by {
        headers_are_sent_whole(configured, i);
    }
}

pub(crate) proof fn lemma_sends(u: McpServerUrlConfig)
    ensures
        ({
            let headers = client_headers(entries_or_none(u.headers), opt_bearer(u.auth_token));
            &&& u.auth_token is Some ==> sends_token(headers, u.auth_token->0@)
            &&& u.headers is Some && distinct_keys(u.headers->0.entries()) ==> sends_headers(
                headers,
                u.headers->0.entries(),
                u.auth_token is Some,
            )
        }),
{
    let entries = entries_or_none(u.headers);
    let token = opt_bearer(u.auth_token);
    configured_token_is_sent_whole(u.auth_token);
    if distinct_keys(entries) {
        assert forall|i: int|
            0 <= i < entries.len() && !(token is Some && (#[trigger] entries[i]).0
                == "Authorization"@) implies {
            &&& client_headers(entries, token).contains_key(entries[i].0)
            &&& if is_authorization(entries[i].0) && !is_marked(entries[i].1) {
                is_marked(client_headers(entries, token)[entries[i].0]) && client_headers(
                    entries,
                    token,
                )[entries[i].0].skip(7) == entries[i].1
            } else {
                client_headers(entries, token)[entries[i].0] == entries[i].1
            }
        } by {
            client_sends_what_was_asked_for(entries, token, entries[i].0, i);
        }
    }
}

/// A service that clients are to reach over standard input and output gets no
/// server.
pub proof fn no_server_on_standard_input(
    r: Result<ServerPlan, String>,
    config: McpServerConfig,
    path: ServicePath,
    mcp_type: McpType,
    protocol: McpProtocol,
)
    requires
        is_plan(r, config, path, mcp_type, protocol),
        path.frontend is Stdio,
    ensures
        r is Err,
        r->Err_0@
            == "Client protocol cannot be Stdio. McpRouterPath::new does not support creating Stdio protocol router paths"@,
{
}

/// A registration takes these steps and no others, each of them for the service
/// under its whole name and its whole base path.
pub proof fn registration_is_complete(
    steps: Seq<RegistrationStep>,
    path: ServicePath,
    mcp_type: McpType,
)
    requires
        step_views(steps) == registration(path, mcp_type),
    ensures
        steps.len() == if path.frontend is Sse {
            5int
        } else {
            4int
        },
        steps[0] is AddService && steps[0]->AddService_mcp_id@ == path.mcp_id@,
        steps[0]->mcp_type == mcp_type && steps[0]->status is Ready,
        steps[1] is CacheConfig && steps[1]->CacheConfig_mcp_id@ == path.mcp_id@,
        path.frontend is Sse ==> steps[2] is AddFallback,
        steps[steps.len() - 2] is RegisterRoute,
        steps[steps.len() - 2]->base_path@ == path.base_path@,
        steps.last() is RecordRestart && steps.last()->RecordRestart_mcp_id@ == path.mcp_id@,
{
    let views = step_views(steps);
    assert(steps.len() == views.len());
    assert(views[0] == steps[0]@);
    assert(views[1] == steps[1]@);
    assert(views[2] == steps[2]@);
    assert(views[views.len() - 2] == steps[steps.len() - 2]@);
    assert(views[views.len() - 1] == steps[steps.len() - 1]@);
}

/// The messages on a failed start name the whole service, or the whole protocol
/// that was not recognized, and the whole reason.
pub proof fn failures_are_told_in_full(
    path: ServicePath,
    mcp_type: McpType,
    protocol_name: Option<String>,
    reason: Seq<char>,
)
    ensures
        frames(
            build_failure(path, mcp_type),
            if path.frontend is Sse {
                "SSE server build failed - MCP ID: "@
            } else {
                "Stream server build failed - MCP ID: "@
            },
            path.mcp_id@,
            ", type: "@ + mcp_type.name_text(),
        ),
        protocol_name is None ==> frames(
            detection_failure(protocol_name, reason),
            "Auto-detection failed: "@,
            reason,
            Seq::empty(),
        ),
        protocol_name is Some ==> frames(
            detection_failure(protocol_name, reason),
            "Protocol type '"@,
            protocol_name->0@,
            "' unrecognized and auto-detection failed: "@ + reason,
        ),
{
}

/// What is planned for a command that clients reach over server-sent events is a
/// server in front of exactly that command: its name, its arguments and its
/// variables are those of the configuration.
pub proof fn planned_command_is_the_configured_one(
    config: &McpServerConfig,
    path: &ServicePath,
    mcp_type: McpType,
    protocol: McpProtocol,
    r: Result<ServerPlan, String>,
)
    requires
        call_ensures(plan_server, (config, path, mcp_type, protocol), r),
        config is Command,
        path.frontend is Sse,
        protocol !is Stream,
    ensures
        r is Ok && r->Ok_0 is Sse,
        ({
            let server = r->Ok_0->Sse_0;
            let command = config->Command_0;
            &&& server.backend_config is Stdio
            &&& server.backend_config->command@ == command.command@
            &&& same_args(server.backend_config->args, command.args)
            &&& same_env(server.backend_config->env, command.env)
            &&& opt_text(server.server_config.mcp_id) == Some(path.mcp_id@)
            &&& server.server_config.sse_path@ == path.frontend->sse_path@
            &&& server.server_config.post_path@ == path.frontend->message_path@
            &&& server.server_config.stateful <==> mcp_type is Persistent
        }),
{
    command_is_run_as_configured(r, config->Command_0, *path, mcp_type, protocol);
    planned_server_is_for_its_service(r, *config, *path, mcp_type, protocol);
}

/// A plan exists exactly where the frontend and the backend fit together.
pub proof fn plans_exist_where_the_ends_fit(
    config: &McpServerConfig,
    path: &ServicePath,
    mcp_type: McpType,
    protocol: McpProtocol,
    r: Result<ServerPlan, String>,
)
    requires
        call_ensures(plan_server, (config, path, mcp_type, protocol), r),
    ensures
        r is Ok <==> {
            ||| path.frontend is Sse && config is Command && protocol !is Stream
            ||| path.frontend is Sse && config is Url && protocol !is Stdio
            ||| path.frontend is Stream && config is Command
            ||| path.frontend is Stream && config is Url && protocol is Stream
        },
{
    match *config {
        McpServerConfig::Command(command) => if path.frontend !is Stdio {
            command_is_run_as_configured(r, command, *path, mcp_type, protocol);
        },
        McpServerConfig::Url(u) => if path.frontend !is Stdio {
            url_is_reached_as_configured(r, u, *path, mcp_type, protocol);
        },
    }
}

/// A service is registered exactly where its server was built.
pub proof fn built_server_is_registered(
    path: &ServicePath,
    mcp_type: McpType,
    built: bool,
    r: Result<Vec<RegistrationStep>, String>,
)
    requires
        call_ensures(after_build, (path, mcp_type, built), r),
        path.frontend !is Stdio,
    ensures
        r is Ok <==> built,
        r is Ok ==> r->Ok_0@.last() is RecordRestart && r->Ok_0@[0] is AddService,
        r is Ok ==> r->Ok_0@[r->Ok_0@.len() - 2] is RegisterRoute,
{
    if r is Ok {
        registration_is_complete(r->Ok_0@, *path, mcp_type);
    }
}

/// The backend of a server is the one that is configured, whichever protocol it
/// speaks: a command is run as it is, and a URL is reached as it is.
pub proof fn backends_are_the_configured_ones(
    config: &McpServerConfig,
    protocol: McpProtocol,
    sse: Result<BackendConfig, String>,
    stream: Result<StreamBackendConfig, String>,
    bridge: Result<McpClientConfig, String>,
)
    requires
        call_ensures(build_sse_backend_config, (config, protocol), sse),
        call_ensures(build_stream_backend_config, (config, protocol), stream),
        call_ensures(connect_stream_backend, (config,), bridge),
    ensures
        match *config {
            McpServerConfig::Command(command) => {
                &&& sse is Ok && sse->Ok_0 is Stdio
                &&& sse->Ok_0->command@ == command.command@
                &&& same_args(sse->Ok_0->args, command.args)
                &&& same_env(sse->Ok_0->env, command.env)
                &&& stream is Ok && stream->Ok_0 is Stdio
                &&& stream->Ok_0->command@ == command.command@
                &&& same_args(stream->Ok_0->args, command.args)
                &&& same_env(stream->Ok_0->env, command.env)
                &&& bridge is Err && bridge->Err_0@ == "Stream backend requires URL-based config"@
            },
            McpServerConfig::Url(u) => {
                &&& sse is Ok <==> protocol is Sse
                &&& protocol is Stdio ==> sse->Err_0@
                    == "URL-based MCP service cannot use Stdio protocol"@ && stream->Err_0@
                    == sse->Err_0@
                &&& protocol is Stream ==> sse->Err_0@
                    == "Stream backend should be handled via connect_stream_backend(), not build_sse_backend_config()"@
                &&& protocol is Sse ==> stream->Err_0@
                    == "SSE backend with Streamable HTTP frontend is not yet supported. Please use SSE frontend or configure a Streamable HTTP backend."@
                &&& sse is Ok ==> sse->Ok_0 is SseUrl && sse->Ok_0->url@ == u.url@
                &&& sse is Ok && u.auth_token is Some ==> sse->Ok_0->headers is Some
                    && sends_token(sse->Ok_0->headers->0@, u.auth_token->0@)
                &&& stream is Ok <==> protocol is Stream
                &&& stream is Ok ==> stream->Ok_0 is Url && stream->Ok_0->url@ == u.url@
                &&& stream is Ok && u.headers is Some ==> stream->Ok_0->headers is Some
                    && same_headers(
                    stream->Ok_0->headers->0.entries(),
                    u.headers->0.entries(),
                )
                &&& bridge is Ok && bridge->Ok_0.url@ == u.url@
                &&& u.auth_token is Some ==> sends_token(
                    bridge->Ok_0.headers@,
                    u.auth_token->0@,
                )
            },
        },
{
    match *config {
        McpServerConfig::Command(command) => {
            lemma_same_args(sse->Ok_0->args, command.args);
            lemma_same_args(stream->Ok_0->args, command.args);
        },
        McpServerConfig::Url(u) => {
            lemma_sends(u);
            if u.headers is Some {
                lemma_same_headers(u.headers->0.entries());
            }
        },
    }
}

/// A command speaks over standard input and output. A URL is taken at its word
/// where its configuration names a protocol that there is; else it is asked, under
/// its whole URL and with its token. What it answers counts; where it does not,
/// the whole reason is told.
pub proof fn protocol_is_known_or_asked_for(
    config: &McpServerConfig,
    parsed: Option<McpProtocol>,
    choice: ProtocolChoice,
    name: &Option<String>,
    outcome: Result<McpProtocol, String>,
    r: Result<McpProtocol, String>,
)
    requires
        call_ensures(backend_protocol, (config, parsed), choice),
        call_ensures(detected_protocol, (name, outcome), r),
    ensures
        config is Command ==> choice == ProtocolChoice::Known(McpProtocol::Stdio),
        config is Url ==> {
            let u = config->Url_0;
            &&& choice is Known <==> u.protocol_name is Some && parsed is Some
            &&& choice is Known ==> choice == ProtocolChoice::Known(parsed->0)
            &&& choice is Detect ==> choice->url@ == u.url@
            &&& choice is Detect && u.auth_token is Some ==> choice->headers is Some
                && sends_token(choice->headers->0@, u.auth_token->0@)
        },
        outcome is Ok ==> r is Ok && r->Ok_0 == outcome->Ok_0,
        outcome is Err && *name is None ==> r is Err && frames(
            r->Err_0@,
            "Auto-detection failed: "@,
            outcome->Err_0@,
            Seq::empty(),
        ),
        outcome is Err && *name is Some ==> r is Err && frames(
            r->Err_0@,
            "Protocol type '"@,
            name->0@,
            "' unrecognized and auto-detection failed: "@ + outcome->Err_0@,
        ),
{
    if config is Url {
        lemma_sends(config->Url_0);
    }
}

/// A server in front of a bridge is for the service that the bridge is for, and
/// only clients on server-sent events get one.
pub proof fn bridge_is_put_behind_its_server(
    bridge: BridgeRef,
    path: &ServicePath,
    mcp_type: McpType,
    r: Option<SseServerBuilder>,
)
    requires
        call_ensures(bridge_server, (bridge, path, mcp_type), r),
    ensures
        r is Some <==> path.frontend is Sse,
        r is Some ==> {
            let server = r->0;
            &&& server.backend_config == BackendConfig::BackendBridge(bridge)
            &&& opt_text(server.server_config.mcp_id) == Some(path.mcp_id@)
            &&& server.server_config.sse_path@ == path.frontend->sse_path@
            &&& server.server_config.post_path@ == path.frontend->message_path@
            &&& server.server_config.keep_alive_secs == if mcp_type is OneShot {
                5u64
            } else {
                15u64
            }
            &&& server.server_config.stateful <==> mcp_type is Persistent
        },
{
}

} // verus!
