//! Servers for server-sent events: how they are described before they are
//! built.

use http::header::{HeaderMap, HeaderValue};
use vstd::prelude::*;

use crate::backend_cell::Backends;
use crate::headers::{
    every_header_is_sent, header_entries, holds, is_header_name, is_header_value, lowered,
    only_bad_headers_are_refused, parse_headers, sent, HeaderError,
};
use crate::launch::{child_gets_what_is_configured, spawn_plan, SpawnPlan};
use crate::shown::{show_opt_list, show_text, shown_opt_list, shown_text};
use crate::sse_handler::{BackendSessionHandler, ServerInfo, SseHandler, SseServerHandler};
use crate::table::Table;
use crate::text::{concat3, frames, join, joined, texts};
use crate::time::{shown_span, Duration, NANOS_PER_SEC};
use crate::tools::ToolFilter;

verus! {

/// `<String as From<&str>>::from`: the string holds the text.
pub assume_specification<'a>[ <String as From<&'a str>>::from ](s: &str) -> (r: String)
    ensures
        r@ == s@,
;

/// `<A as From<A>>::from`: a value made from itself is that value.
pub assume_specification<A>[ <A as From<A>>::from ](t: A) -> (r: A)
    ensures
        r == t,
;

/// After how many seconds the start of a child process is slow.
pub const STDIO_SLOW_THRESHOLD_SECS: u64 = 30;

/// After how many seconds a connection over HTTP is slow.
pub const HTTP_SLOW_THRESHOLD_SECS: u64 = 10;

/// A backend that is already connected, behind a bridge.
#[derive(Clone, Debug)]
pub struct BridgeRef {
    /// The name of the service.
    pub mcp_id: String,
    /// The number by which the bridge is found.
    pub number: u64,
}

/// How a server reaches its backend.
#[derive(Clone)]
pub enum BackendConfig {
    /// A child process, over its standard input and output.
    Stdio {
        command: String,
        args: Option<Vec<String>>,
        /// Environment variables.
        env: Option<Table<String>>,
    },
    /// A URL, over server-sent events.
    SseUrl {
        url: String,
        /// HTTP headers.
        headers: Option<Table<String>>,
    },
    /// A backend that the caller has connected.
    BackendBridge(BridgeRef),
}

/// A backend as it is shown: without environment variables and headers, which
/// may hold secrets.
pub open spec fn shown_backend(backend: BackendConfig) -> Seq<char> {
    match backend {
        BackendConfig::Stdio { command, args, .. } => "Stdio { command: "@ + shown_text(command@)
            + ", args: "@ + shown_opt_list(args) + " }"@,
        BackendConfig::SseUrl { url, .. } => "SseUrl { url: "@ + shown_text(url@) + " }"@,
        BackendConfig::BackendBridge(bridge) => "BackendBridge { mcp_id: "@ + shown_text(
            bridge.mcp_id@,
        ) + " }"@,
    }
}

impl BackendConfig {
    /// The backend as it is shown to a developer.
    pub fn debug_text(&self) -> (r: String)
        ensures
            r@ == shown_backend(*self),
    {
        match self {
            BackendConfig::Stdio { command, args, .. } => {
                let mut r: String = "Stdio { command: ".to_owned();
                r.append(show_text(command.as_str()).as_str());
                r.append(", args: ");
                r.append(show_opt_list(args).as_str());
                r.append(" }");
                r
            },
            BackendConfig::SseUrl { url, .. } => {
                concat3("SseUrl { url: ", show_text(url.as_str()).as_str(), " }")
            },
            BackendConfig::BackendBridge(bridge) => {
                concat3(
                    "BackendBridge { mcp_id: ",
                    show_text(bridge.mcp_id.as_str()).as_str(),
                    " }",
                )
            },
        }
    }
}

/// Two backends that differ in their environment variables or their headers
/// alone are shown alike: neither is given away.
pub proof fn secrets_are_not_shown(
    command: String,
    args: Option<Vec<String>>,
    env: Option<Table<String>>,
    other_env: Option<Table<String>>,
    url: String,
    headers: Option<Table<String>>,
    other_headers: Option<Table<String>>,
)
    ensures
        shown_backend(BackendConfig::Stdio { command, args, env }) == shown_backend(
            BackendConfig::Stdio { command, args, env: other_env },
        ),
        shown_backend(BackendConfig::SseUrl { url, headers }) == shown_backend(
            BackendConfig::SseUrl { url, headers: other_headers },
        ),
{
}

/// What a server for server-sent events is built from, its backend aside.
#[derive(Clone, Debug)]
pub struct SseServerBuilderConfig {
    /// The path of the event stream.
    pub sse_path: String,
    /// The path of messages from clients.
    pub post_path: String,
    /// The name of the service.
    pub mcp_id: Option<String>,
    /// Which tools may be used.
    pub tool_filter: Option<ToolFilter>,
    /// How often a sign of life is sent, in seconds.
    pub keep_alive_secs: u64,
    /// Whether a client has to initialize its session first.
    pub stateful: bool,
}

impl Default for SseServerBuilderConfig {
    fn default() -> (r: Self)
        ensures
            r.sse_path@ == "/sse"@,
            r.post_path@ == "/message"@,
            r.mcp_id is None,
            r.tool_filter is None,
            r.keep_alive_secs == 15,
            r.stateful,
    {
        SseServerBuilderConfig {
            sse_path: String::from("/sse"),
            post_path: String::from("/message"),
            mcp_id: None,
            tool_filter: None,
            keep_alive_secs: 15,
            stateful: true,
        }
    }
}

/// The text of a part of a connection's time.
pub open spec fn shown_part(name: Seq<char>, time: Duration) -> Seq<char> {
    name + ": "@ + shown_span(time.whole_secs(), time.rest_nanos())
}

/// The texts of the parts of a connection's time.
pub open spec fn shown_parts(breakdown: Seq<(&str, Duration)>) -> Seq<Seq<char>> {
    breakdown.map_values(|part: (&str, Duration)| shown_part(part.0@, part.1))
}

/// What is reported when a backend has been connected.
pub open spec fn connected_text(
    mcp_id: Seq<char>,
    backend_type: Seq<char>,
    total: Duration,
    parts: Seq<Seq<char>>,
) -> Seq<char> {
    "[SseServerBuilder] "@ + backend_type + " backend connected successfully - MCP ID: "@ + mcp_id
        + ", total: "@ + shown_span(total.whole_secs(), total.rest_nanos()) + " ("@ + joined(
        parts,
        ", "@,
    ) + ")"@
}

/// What is reported when a backend took too long to connect.
pub open spec fn slow_text(
    mcp_id: Seq<char>,
    backend_type: Seq<char>,
    total: Duration,
    advice: Seq<char>,
) -> Seq<char> {
    "[SseServerBuilder] "@ + backend_type + " backend connection takes a long time - MCP ID: "@
        + mcp_id + ", time: "@ + shown_span(total.whole_secs(), total.rest_nanos()) + ", "@
        + advice
}

/// What is reported when a backend has been connected.
#[derive(Clone, Debug)]
pub struct ConnectionReport {
    pub info: String,
    /// Given where the connection was slow.
    pub warning: Option<String>,
}

impl ConnectionReport {
    /// The report on a connection that is slow from so many seconds on.
    pub open spec fn reports(
        self,
        mcp_id: Seq<char>,
        backend_type: Seq<char>,
        total: Duration,
        parts: Seq<Seq<char>>,
        slow_secs: u64,
        advice: Seq<char>,
    ) -> bool {
        &&& self.info@ == connected_text(mcp_id, backend_type, total, parts)
        &&& self.warning is Some == (total@ / NANOS_PER_SEC as nat >= slow_secs)
        &&& self.warning is Some ==> self.warning->0@ == slow_text(
            mcp_id,
            backend_type,
            total,
            advice,
        )
    }
}

/// What is reported when a backend has been connected: how long it took, and a
/// warning where it took too long.
pub fn log_connection_timing(
    mcp_id: &str,
    backend_type: &str,
    total_duration: Duration,
    breakdown: &[(&str, Duration)],
    warn_threshold_secs: u64,
    warn_message: &str,
) -> (r: ConnectionReport)
    ensures
        r.reports(
            mcp_id@,
            backend_type@,
            total_duration,
            shown_parts(breakdown@),
            warn_threshold_secs,
            warn_message@,
        ),
{
    let mut parts: Vec<String> = Vec::new();
    let mut i: usize = 0;
    while i < breakdown.len()
        invariant
            i <= breakdown.len(),
            texts(parts@) == shown_parts(breakdown@.take(i as int)),
        decreases breakdown.len() - i,
    {
        let ghost before = texts(parts@);
        let part: String = concat3(breakdown[i].0, ": ", breakdown[i].1.shown().as_str());
        parts.push(part);
        proof {
            assert(texts(parts@) =~= before.push(part@));
            assert(shown_parts(breakdown@.take(i + 1)) =~= shown_parts(
                breakdown@.take(i as int),
            ).push(part@));
        }
        i += 1;
    }
    assert(breakdown@.take(i as int) =~= breakdown@);
    let total: String = total_duration.shown();
    let mut info: String = "[SseServerBuilder] ".to_owned();
    info.append(backend_type);
    info.append(" backend connected successfully - MCP ID: ");
    info.append(mcp_id);
    info.append(", total: ");
    info.append(total.as_str());
    info.append(" (");
    info.append(join(&parts, ", ").as_str());
    info.append(")");
    let warning: Option<String> = if total_duration.as_secs() >= warn_threshold_secs {
        let mut w: String = "[SseServerBuilder] ".to_owned();
        w.append(backend_type);
        w.append(" backend connection takes a long time - MCP ID: ");
        w.append(mcp_id);
        w.append(", time: ");
        w.append(total.as_str());
        w.append(", ");
        w.append(warn_message);
        Some(w)
    } else {
        None
    };
    ConnectionReport { info, warning }
}

/// A server for server-sent events that is to be built.
pub struct SseServerBuilder {
    pub backend_config: BackendConfig,
    pub server_config: SseServerBuilderConfig,
}

impl SseServerBuilder {
    /// A server with the usual settings in front of a backend.
    pub fn new(backend: BackendConfig) -> (r: Self)
        ensures
            r.backend_config == backend,
            r.server_config.sse_path@ == "/sse"@,
            r.server_config.post_path@ == "/message"@,
            r.server_config.mcp_id is None,
            r.server_config.tool_filter is None,
            r.server_config.keep_alive_secs == 15,
            r.server_config.stateful,
    {
        SseServerBuilder {
            backend_config: backend,
            server_config: SseServerBuilderConfig::default(),
        }
    }

    /// The server with the path of its event stream set.
    pub fn sse_path(self, path: impl Into<String>) -> (r: Self)
        ensures
            call_ensures(Into::<String>::into, (path,), r.server_config.sse_path),
            r.backend_config == self.backend_config,
            r.server_config == (SseServerBuilderConfig {
                sse_path: r.server_config.sse_path,
                ..self.server_config
            }),
    {
        let mut s = self;
        s.server_config.sse_path = path.into();
        s
    }

    /// The server with the path of messages from clients set.
    pub fn post_path(self, path: impl Into<String>) -> (r: Self)
        ensures
            call_ensures(Into::<String>::into, (path,), r.server_config.post_path),
            r.backend_config == self.backend_config,
            r.server_config == (SseServerBuilderConfig {
                post_path: r.server_config.post_path,
                ..self.server_config
            }),
    {
        let mut s = self;
        s.server_config.post_path = path.into();
        s
    }

    /// The server with the name of its service set.
    pub fn mcp_id(self, id: impl Into<String>) -> (r: Self)
        ensures
            r.server_config.mcp_id is Some,
            call_ensures(Into::<String>::into, (id,), r.server_config.mcp_id->0),
            r.backend_config == self.backend_config,
            r.server_config == (SseServerBuilderConfig {
                mcp_id: r.server_config.mcp_id,
                ..self.server_config
            }),
    {
        let mut s = self;
        s.server_config.mcp_id = Some(id.into());
        s
    }

    /// The server with a filter on its tools.
    pub fn tool_filter(self, filter: ToolFilter) -> (r: Self)
        ensures
            r.backend_config == self.backend_config,
            r.server_config == (SseServerBuilderConfig {
                tool_filter: Some(filter),
                ..self.server_config
            }),
    {
        let mut s = self;
        s.server_config.tool_filter = Some(filter);
        s
    }

    /// The server with the seconds between two signs of life set.
    pub fn keep_alive(self, secs: u64) -> (r: Self)
        ensures
            r.backend_config == self.backend_config,
            r.server_config == (SseServerBuilderConfig {
                keep_alive_secs: secs,
                ..self.server_config
            }),
    {
        let mut s = self;
        s.server_config.keep_alive_secs = secs;
        s
    }

    /// The server with or without sessions that have to be initialized. Without
    /// them it answers faster, which suits one-shots.
    pub fn stateful(self, stateful: bool) -> (r: Self)
        ensures
            r.backend_config == self.backend_config,
            r.server_config == (SseServerBuilderConfig { stateful, ..self.server_config }),
    {
        let mut s = self;
        s.server_config.stateful = stateful;
        s
    }
}

/// How the backend of a server is connected.
pub enum BackendAction {
    /// By starting a child process.
    Spawn(SpawnPlan),
    /// By connecting to a URL, with these headers.
    Connect { url: String, headers: HeaderMap<HeaderValue> },
    /// It is already connected, behind this bridge.
    UseBridge(BridgeRef),
}

/// The headers with which a server connects to a URL, or what is wrong with them.
pub open spec fn url_headers(
    headers: Option<Table<String>>,
    r: Result<HeaderMap<HeaderValue>, HeaderError>,
) -> bool {
    match headers {
        Some(table) => match r {
            Ok(m) => holds(m, table.entries()),
            Err(e) => e.explains(table.entries()),
        },
        None => r is Ok && header_entries(r->Ok_0) == Map::<Seq<char>, Seq<char>>::empty(),
    }
}

/// A backend that has been connected.
#[derive(Debug)]
pub struct Connected<C> {
    /// The number of the connection.
    pub number: u64,
    /// What the backend says of itself, where it could be read.
    pub info: Option<ServerInfo<C>>,
    /// What is said of a backend behind a bridge where it could not be read.
    pub default_info: ServerInfo<C>,
}

/// Where and how a server is served.
#[derive(Clone, Debug)]
pub struct SseEndpoint {
    /// The address to bind to; the server is mounted by its caller, so none is
    /// taken.
    pub bind: &'static str,
    pub sse_path: String,
    pub post_path: String,
    /// How often a sign of life is sent.
    pub keep_alive: Duration,
    /// Whether a client has to initialize its session first.
    pub stateful: bool,
}

/// A name, or another where there is none.
pub open spec fn name_or(name: Option<String>, other: Seq<char>) -> Seq<char> {
    match name {
        Some(text) => text@,
        None => other,
    }
}

fn named(name: &Option<String>, other: &str) -> (r: String)
    ensures
        r@ == name_or(*name, other@),
{
    match name {
        Some(text) => text.clone(),
        None => other.to_owned(),
    }
}

impl SseServerBuilder {
    /// The name under which the service is known.
    pub fn service_id(&self) -> (r: String)
        ensures
            r@ == name_or(self.server_config.mcp_id, "sse-proxy"@),
    {
        named(&self.server_config.mcp_id, "sse-proxy")
    }

    /// The name of the service in reports on its connection.
    pub fn connection_label(&self) -> (r: String)
        ensures
            r@ == name_or(self.server_config.mcp_id, "unknown"@),
    {
        named(&self.server_config.mcp_id, "unknown")
    }

    /// How the child process of a server is started.
    pub fn connect_stdio(
        &self,
        command: &str,
        args: &Option<Vec<String>>,
        env: &Option<Table<String>>,
    ) -> (r: SpawnPlan)
        ensures
            r.is_for(command@, *args, *env),
    {
        spawn_plan(command, args, env)
    }

    /// The headers with which a server connects to a URL, or what is wrong with
    /// them.
    pub fn connect_sse_url(&self, headers: &Option<Table<String>>) -> (r: Result<
        HeaderMap<HeaderValue>,
        HeaderError,
    >)
        ensures
            url_headers(*headers, r),
    {
        match headers {
            Some(table) => parse_headers(table),
            None => {
                let none: Table<String> = Table::new();
                let r = parse_headers(&none);
                proof {
                    reveal_with_fuel(crate::table::map_of, 2);
                    assert(sent(none.entries()) =~= Map::<Seq<char>, Seq<char>>::empty());
                }
                r
            },
        }
    }

    /// How the backend of the server is connected, or what is wrong with the
    /// headers that are to be sent to it.
    pub fn backend_action(&self) -> (r: Result<BackendAction, HeaderError>)
        ensures
            match self.backend_config {
                BackendConfig::Stdio { command, args, env } => {
                    &&& r is Ok && r->Ok_0 is Spawn
                    &&& r->Ok_0->Spawn_0.is_for(command@, args, env)
                },
                BackendConfig::SseUrl { url, headers } => match r {
                    Ok(action) => {
                        &&& action is Connect
                        &&& action->url@ == url@
                        &&& url_headers(headers, Ok(action->headers))
                    },
                    Err(e) => url_headers(headers, Err(e)),
                },
                BackendConfig::BackendBridge(bridge) => {
                    &&& r is Ok && r->Ok_0 is UseBridge
                    &&& r->Ok_0->UseBridge_0.mcp_id@ == bridge.mcp_id@
                    &&& r->Ok_0->UseBridge_0.number == bridge.number
                },
            },
    {
        match &self.backend_config {
            BackendConfig::Stdio { command, args, env } => Ok(
                BackendAction::Spawn(self.connect_stdio(command.as_str(), args, env)),
            ),
            BackendConfig::SseUrl { url, headers } => match self.connect_sse_url(headers) {
                Ok(headers) => Ok(BackendAction::Connect { url: url.clone(), headers }),
                Err(e) => Err(e),
            },
            BackendConfig::BackendBridge(bridge) => Ok(
                BackendAction::UseBridge(
                    BridgeRef { mcp_id: bridge.mcp_id.clone(), number: bridge.number },
                ),
            ),
        }
    }

    /// What is reported when the child process of a server has been connected.
    pub fn stdio_report(&self, total: Duration, spawn: Duration, serve: Duration) -> (r:
        ConnectionReport)
        ensures
            r.reports(
                name_or(self.server_config.mcp_id, "unknown"@),
                "Stdio"@,
                total,
                seq![shown_part("spawn"@, spawn), shown_part("serve"@, serve)],
                30,
                "建议的优化方案: 1) 检查网络连接速度 (npm 包下载) 2) 配置国内 npm 镜像 (如淘宝镜像: npm config set registry https://registry.npmmirror.com) 3) 预热服务 (启动 mcp-proxy 时预先加载常用服务) 4) 检查命令参数是否正确"@,
            ),
    {
        let mcp_id: String = self.connection_label();
        let parts: [(&str, Duration); 2] = [("spawn", spawn), ("serve", serve)];
        assert(shown_parts(parts@) =~= seq![
            shown_part("spawn"@, spawn),
            shown_part("serve"@, serve),
        ]);
        log_connection_timing(
            mcp_id.as_str(),
            "Stdio",
            total,
            &parts,
            STDIO_SLOW_THRESHOLD_SECS,
            "建议的优化方案: 1) 检查网络连接速度 (npm 包下载) 2) 配置国内 npm 镜像 (如淘宝镜像: npm config set registry https://registry.npmmirror.com) 3) 预热服务 (启动 mcp-proxy 时预先加载常用服务) 4) 检查命令参数是否正确",
        )
    }

    /// What is reported when a server has been connected to a URL.
    pub fn sse_report(&self, total: Duration, transport: Duration, serve: Duration) -> (r:
        ConnectionReport)
        ensures
            r.reports(
                name_or(self.server_config.mcp_id, "unknown"@),
                "SSE"@,
                total,
                seq![shown_part("transport"@, transport), shown_part("serve"@, serve)],
                10,
                "建议: 检查网络连接和后端服务状态"@,
            ),
    {
        let mcp_id: String = self.connection_label();
        let parts: [(&str, Duration); 2] = [("transport", transport), ("serve", serve)];
        assert(shown_parts(parts@) =~= seq![
            shown_part("transport"@, transport),
            shown_part("serve"@, serve),
        ]);
        log_connection_timing(
            mcp_id.as_str(),
            "SSE",
            total,
            &parts,
            HTTP_SLOW_THRESHOLD_SECS,
            "建议: 检查网络连接和后端服务状态",
        )
    }

    /// Where and how the server is served.
    pub fn create_server(&self) -> (r: SseEndpoint)
        ensures
            r.bind@ == "0.0.0.0:0"@,
            r.sse_path@ == self.server_config.sse_path@,
            r.post_path@ == self.server_config.post_path@,
            r.keep_alive@ == self.server_config.keep_alive_secs * NANOS_PER_SEC,
            r.stateful == self.server_config.stateful,
    {
        SseEndpoint {
            bind: "0.0.0.0:0",
            sse_path: self.server_config.sse_path.clone(),
            post_path: self.server_config.post_path.clone(),
            keep_alive: Duration::from_secs(self.server_config.keep_alive_secs),
            stateful: self.server_config.stateful,
        }
    }

    /// The handler of the server, once its backend has been connected. A filter
    /// on tools applies to a backend that is not behind a bridge.
    pub fn build<C>(self, backends: &mut Backends, connected: Connected<C>) -> (r:
        SseServerHandler<C>)
        ensures
            r.id() == name_or(self.server_config.mcp_id, "sse-proxy"@),
            r is BackendSession <==> self.backend_config is BackendBridge,
            if self.backend_config is BackendBridge {
                &&& r.info() == ServerInfo::bridged(connected.info, connected.default_info)
                &&& final(backends)@ == old(backends)@
            } else {
                &&& r.info() == ServerInfo::extracted(connected.info)
                &&& r->Sse_0.slot() == old(backends)@.len()
                &&& r->Sse_0.belongs_to(*final(backends))
                &&& final(backends)@ == old(backends)@.push(seq![connected.number])
                &&& match self.server_config.tool_filter {
                    Some(filter) => r->Sse_0.filter() == filter,
                    None => !r->Sse_0.filter().enabled(),
                }
            },
    {
        let mcp_id: String = self.service_id();
        match self.backend_config {
            BackendConfig::BackendBridge(_) => SseServerHandler::BackendSession(
                BackendSessionHandler::new(mcp_id, connected.info, connected.default_info),
            ),
            _ => match self.server_config.tool_filter {
                Some(filter) => SseServerHandler::Sse(
                    SseHandler::with_tool_filter(
                        backends,
                        connected.number,
                        &connected.info,
                        mcp_id,
                        filter,
                    ),
                ),
                None => SseServerHandler::Sse(
                    SseHandler::with_mcp_id(backends, connected.number, &connected.info, mcp_id),
                ),
            },
        }
    }
}

/// A backend is shown with its whole command and all its arguments, its whole URL
/// or the whole name of its service.
pub proof fn backends_are_shown_in_full(backend: BackendConfig)
    ensures
        match backend {
            BackendConfig::Stdio { command, args, .. } => frames(
                shown_backend(backend),
                "Stdio { command: "@,
                shown_text(command@),
                ", args: "@ + shown_opt_list(args) + " }"@,
            ),
            BackendConfig::SseUrl { url, .. } => frames(
                shown_backend(backend),
                "SseUrl { url: "@,
                shown_text(url@),
                " }"@,
            ),
            BackendConfig::BackendBridge(bridge) => frames(
                shown_backend(backend),
                "BackendBridge { mcp_id: "@,
                shown_text(bridge.mcp_id@),
                " }"@,
            ),
        },
{
}

/// A connection is slow from the first nanosecond of the given second on, and
/// only then there is a warning, which gives the whole advice.
pub proof fn only_slow_connections_are_warned_of(
    report: ConnectionReport,
    mcp_id: Seq<char>,
    backend_type: Seq<char>,
    total: Duration,
    parts: Seq<Seq<char>>,
    slow_secs: u64,
    advice: Seq<char>,
)
    requires
        report.reports(mcp_id, backend_type, total, parts, slow_secs, advice),
    ensures
        report.warning is Some <==> total@ >= slow_secs * 1_000_000_000,
        report.warning is Some ==> frames(
            report.warning->0@,
            "[SseServerBuilder] "@ + backend_type
                + " backend connection takes a long time - MCP ID: "@,
            mcp_id,
            ", time: "@ + shown_span(total.whole_secs(), total.rest_nanos()) + ", "@ + advice,
        ),
        frames(
            report.info@,
            "[SseServerBuilder] "@ + backend_type + " backend connected successfully - MCP ID: "@,
            mcp_id,
            ", total: "@ + shown_span(total.whole_secs(), total.rest_nanos()) + " ("@ + joined(
                parts,
                ", "@,
            ) + ")"@,
        ),
{
    let nanos = total@ as int;
    let secs = slow_secs as int;
    assert(nanos / 1_000_000_000 >= secs <==> nanos >= secs * 1_000_000_000);
    assert(connected_text(mcp_id, backend_type, total, parts) =~= ("[SseServerBuilder] "@
        + backend_type + " backend connected successfully - MCP ID: "@) + mcp_id + (", total: "@
        + shown_span(total.whole_secs(), total.rest_nanos()) + " ("@ + joined(parts, ", "@)
        + ")"@));
    assert(slow_text(mcp_id, backend_type, total, advice) =~= ("[SseServerBuilder] "@
        + backend_type + " backend connection takes a long time - MCP ID: "@) + mcp_id
        + (", time: "@ + shown_span(total.whole_secs(), total.rest_nanos()) + ", "@ + advice));
}

/// The parts of a connection's time are shown one for one, in order, each under
/// its whole name.
pub proof fn every_part_of_the_time_is_shown(breakdown: Seq<(&str, Duration)>)
    ensures
        shown_parts(breakdown).len() == breakdown.len(),
        forall|i: int|
            0 <= i < breakdown.len() ==> frames(
                #[trigger] shown_parts(breakdown)[i],
                breakdown[i].0@,
                ": "@,
                shown_span(breakdown[i].1.whole_secs(), breakdown[i].1.rest_nanos()),
            ),
{
}

/// A service is known by its whole name, and by another one only where it has
/// none.
pub proof fn service_keeps_its_name(name: String, other: Seq<char>)
    ensures
        name_or(Some(name), other) == name@,
        name_or(None, other) == other,
{
}

/// A server connects to a URL with every header that is configured, under its
/// name in lower case and with its whole value; without a configuration it sends
/// none. It fails only for a header that cannot be sent, or for too many.
pub proof fn url_gets_the_configured_headers(
    headers: Option<Table<String>>,
    r: Result<HeaderMap<HeaderValue>, HeaderError>,
    name: Seq<char>,
)
    requires
        url_headers(headers, r),
    ensures
        headers is None ==> r is Ok && !header_entries(r->Ok_0).contains_key(name),
        headers is Some && r is Ok ==> (header_entries(r->Ok_0).contains_key(name) <==> exists|
            j: int,
        |
            0 <= j < headers->0.entries().len() && lowered(
                (#[trigger] headers->0.entries()[j]).0,
            ) == name),
        headers is Some && r is Ok ==> forall|i: int|
            0 <= i < headers->0.entries().len() && (forall|j: int|
                i < j < headers->0.entries().len() ==> lowered(
                    (#[trigger] headers->0.entries()[j]).0,
                ) != lowered(headers->0.entries()[i].0)) ==> header_entries(
                r->Ok_0,
            )[lowered((#[trigger] headers->0.entries()[i]).0)] == headers->0.entries()[i].1,
        headers is Some && headers->0.entries().len() <= 6554 && (forall|i: int|
            0 <= i < headers->0.entries().len() ==> is_header_name(
                (#[trigger] headers->0.entries()[i]).0,
            ) && is_header_value(headers->0.entries()[i].1)) ==> r is Ok,
{
    if headers is Some {
        let entries = headers->0.entries();
        if r is Ok {
            every_header_is_sent(r->Ok_0, entries, 0, name);
            assert forall|i: int|
                0 <= i < entries.len() && (forall|j: int|
                    i < j < entries.len() ==> lowered((#[trigger] entries[j]).0) != lowered(
                        entries[i].0,
                    )) implies header_entries(r->Ok_0)[lowered((#[trigger] entries[i]).0)]
                == entries[i].1 by {
                every_header_is_sent(r->Ok_0, entries, i, name);
            }
        } else {
            only_bad_headers_are_refused(r->Err_0, arbitrary(), entries, 0);
        }
    }
}

/// A server starts the command that it was given, with all its arguments and
/// variables; connects to the URL that it was given, with all its headers; or uses
/// the bridge that it was given. Only headers can be wrong.
pub proof fn server_connects_to_its_backend(
    builder: &SseServerBuilder,
    r: Result<BackendAction, HeaderError>,
)
    requires
        call_ensures(SseServerBuilder::backend_action, (builder,), r),
    ensures
        match builder.backend_config {
            BackendConfig::Stdio { command, args, env } => {
                &&& r is Ok && r->Ok_0 is Spawn
                &&& r->Ok_0->Spawn_0.command@ == command@
                &&& args is None ==> r->Ok_0->Spawn_0.args@.len() == 0
                &&& args is Some ==> r->Ok_0->Spawn_0.args@.len() == args->0@.len() && forall|
                    i: int,
                |
                    0 <= i < args->0@.len() ==> (#[trigger] r->Ok_0->Spawn_0.args@[i])@
                        == args->0@[i]@
                &&& env is None ==> r->Ok_0->Spawn_0.env.entries().len() == 0
                &&& env is Some ==> r->Ok_0->Spawn_0.env.entries() == env->0.entries()
            },
            BackendConfig::SseUrl { url, headers } => {
                &&& r is Ok ==> r->Ok_0 is Connect && r->Ok_0->url@ == url@
                &&& headers is None ==> r is Ok
                &&& headers is Some && headers->0.entries().len() <= 6554 && (forall|i: int|
                    0 <= i < headers->0.entries().len() ==> is_header_name(
                        (#[trigger] headers->0.entries()[i]).0,
                    ) && is_header_value(headers->0.entries()[i].1)) ==> r is Ok
                &&& headers is Some && r is Ok ==> holds(r->Ok_0->headers, headers->0.entries())
            },
            BackendConfig::BackendBridge(bridge) => {
                &&& r is Ok && r->Ok_0 is UseBridge
                &&& r->Ok_0->UseBridge_0.mcp_id@ == bridge.mcp_id@
                &&& r->Ok_0->UseBridge_0.number == bridge.number
            },
        },
{
    match builder.backend_config {
        BackendConfig::Stdio { command, args, env } => {
            child_gets_what_is_configured(r->Ok_0->Spawn_0, command@, args, env);
        },
        BackendConfig::SseUrl { url, headers } => {
            let taken: Result<HeaderMap<HeaderValue>, HeaderError> = match r {
                Ok(action) => Ok(action->headers),
                Err(e) => Err(e),
            };
            url_gets_the_configured_headers(headers, taken, Seq::empty());
        },
        BackendConfig::BackendBridge(_) => {},
    }
}

/// A server is served on its own paths and keeps its own settings. Its caller
/// mounts it, so it takes no address.
pub proof fn server_is_served_on_its_paths(
    builder: &SseServerBuilder,
    r: SseEndpoint,
    id: String,
    label: String,
)
    requires
        call_ensures(SseServerBuilder::create_server, (builder,), r),
        call_ensures(SseServerBuilder::service_id, (builder,), id),
        call_ensures(SseServerBuilder::connection_label, (builder,), label),
    ensures
        r.sse_path@ == builder.server_config.sse_path@,
        r.post_path@ == builder.server_config.post_path@,
        r.stateful == builder.server_config.stateful,
        r.keep_alive@ == builder.server_config.keep_alive_secs * 1_000_000_000,
        r.bind@ == "0.0.0.0:0"@,
        builder.server_config.mcp_id is Some ==> id@ == builder.server_config.mcp_id->0@ && label@
            == builder.server_config.mcp_id->0@,
        builder.server_config.mcp_id is None ==> id@ == "sse-proxy"@ && label@ == "unknown"@,
{
}

/// A child process that takes half a minute to connect is slow, and a URL that
/// takes ten seconds. The report gives the time of each part.
pub proof fn slow_backends_are_reported(
    builder: &SseServerBuilder,
    total: Duration,
    first: Duration,
    second: Duration,
    child: ConnectionReport,
    url: ConnectionReport,
)
    requires
        call_ensures(SseServerBuilder::stdio_report, (builder, total, first, second), child),
        call_ensures(SseServerBuilder::sse_report, (builder, total, first, second), url),
    ensures
        child.warning is Some <==> total@ >= 30_000_000_000,
        url.warning is Some <==> total@ >= 10_000_000_000,
        ({
            let name = match builder.server_config.mcp_id {
                Some(text) => text@,
                None => "unknown"@,
            };
            let time = shown_span(total.whole_secs(), total.rest_nanos());
            &&& frames(
                child.info@,
                "[SseServerBuilder] "@ + "Stdio"@
                    + " backend connected successfully - MCP ID: "@,
                name,
                ", total: "@ + time + " ("@ + joined(
                    seq![shown_part("spawn"@, first), shown_part("serve"@, second)],
                    ", "@,
                ) + ")"@,
            )
            &&& frames(
                url.info@,
                "[SseServerBuilder] "@ + "SSE"@ + " backend connected successfully - MCP ID: "@,
                name,
                ", total: "@ + time + " ("@ + joined(
                    seq![shown_part("transport"@, first), shown_part("serve"@, second)],
                    ", "@,
                ) + ")"@,
            )
            &&& child.warning is Some ==> frames(
                child.warning->0@,
                "[SseServerBuilder] "@ + "Stdio"@
                    + " backend connection takes a long time - MCP ID: "@,
                name,
                ", time: "@ + time + ", "@
                    + "建议的优化方案: 1) 检查网络连接速度 (npm 包下载) 2) 配置国内 npm 镜像 (如淘宝镜像: npm config set registry https://registry.npmmirror.com) 3) 预热服务 (启动 mcp-proxy 时预先加载常用服务) 4) 检查命令参数是否正确"@,
            )
            &&& url.warning is Some ==> frames(
                url.warning->0@,
                "[SseServerBuilder] "@ + "SSE"@
                    + " backend connection takes a long time - MCP ID: "@,
                name,
                ", time: "@ + time + ", "@ + "建议: 检查网络连接和后端服务状态"@,
            )
        }),
{
    let name = name_or(builder.server_config.mcp_id, "unknown"@);
    only_slow_connections_are_warned_of(
        child,
        name,
        "Stdio"@,
        total,
        seq![shown_part("spawn"@, first), shown_part("serve"@, second)],
        30,
        "建议的优化方案: 1) 检查网络连接速度 (npm 包下载) 2) 配置国内 npm 镜像 (如淘宝镜像: npm config set registry https://registry.npmmirror.com) 3) 预热服务 (启动 mcp-proxy 时预先加载常用服务) 4) 检查命令参数是否正确"@,
    );
    only_slow_connections_are_warned_of(
        url,
        name,
        "SSE"@,
        total,
        seq![shown_part("transport"@, first), shown_part("serve"@, second)],
        10,
        "建议: 检查网络连接和后端服务状态"@,
    );
}

/// A server that is built has the name of its service. In front of a bridge it has
/// no slot and no filter; in front of any other backend it takes a new slot for
/// its connection, and filters by its own lists.
pub proof fn built_server_has_its_connection<C>(
    builder: SseServerBuilder,
    connected: Connected<C>,
    r: SseServerHandler<C>,
    other: usize,
)
    ensures
        forall|b: &mut Backends|
            #![trigger call_ensures(SseServerBuilder::build::<C>, (builder, b, connected), r)]
            call_ensures(SseServerBuilder::build::<C>, (builder, b, connected), r) ==> {
                let name = match builder.server_config.mcp_id {
                    Some(text) => text@,
                    None => "sse-proxy"@,
                };
                &&& r.id() == name
                &&& r is BackendSession <==> builder.backend_config is BackendBridge
                &&& r is BackendSession ==> final(b)@ == (*b)@
                &&& r is Sse ==> {
                    &&& r->Sse_0.slot() >= (*b)@.len()
                    &&& r->Sse_0.connection(*final(b)) == seq![connected.number]
                    &&& other != r->Sse_0.slot() ==> final(b).at(other) == (*b).at(other)
                    &&& builder.server_config.tool_filter is Some ==> r->Sse_0.filter()
                        == builder.server_config.tool_filter->0
                    &&& builder.server_config.tool_filter is None
                        ==> r->Sse_0.filter().allow_tools is None
                        && r->Sse_0.filter().deny_tools is None
                    &&& connected.info is Some ==> r.info().name == connected.info->0.name@
                        && r.info().capabilities == connected.info->0.capabilities
                }
                &&& r is BackendSession && connected.info is Some ==> r.info().name
                    == connected.info->0.name@ && r.info().capabilities
                    == connected.info->0.capabilities
                &&& r is BackendSession ==> r.info().protocol_version == "2024-11-05"@
            },
{
}

/// A builder begins with the usual settings, and each setter changes its own
/// setting alone.
pub proof fn setters_change_one_setting(
    builder: SseServerBuilder,
    backend: BackendConfig,
    fresh: SseServerBuilder,
    filter: ToolFilter,
    filtered: SseServerBuilder,
    secs: u64,
    kept_alive: SseServerBuilder,
    stateful: bool,
    with_sessions: SseServerBuilder,
)
    requires
        call_ensures(SseServerBuilder::new, (backend,), fresh),
        call_ensures(SseServerBuilder::tool_filter, (builder, filter), filtered),
        call_ensures(SseServerBuilder::keep_alive, (builder, secs), kept_alive),
        call_ensures(SseServerBuilder::stateful, (builder, stateful), with_sessions),
    ensures
        fresh.backend_config == backend,
        fresh.server_config.sse_path@ == "/sse"@,
        fresh.server_config.post_path@ == "/message"@,
        fresh.server_config.mcp_id is None && fresh.server_config.tool_filter is None,
        fresh.server_config.keep_alive_secs == 15 && fresh.server_config.stateful,
        filtered.server_config.tool_filter == Some(filter),
        filtered.server_config.sse_path == builder.server_config.sse_path,
        filtered.server_config.post_path == builder.server_config.post_path,
        filtered.server_config.mcp_id == builder.server_config.mcp_id,
        filtered.server_config.keep_alive_secs == builder.server_config.keep_alive_secs,
        filtered.server_config.stateful == builder.server_config.stateful,
        filtered.backend_config == builder.backend_config,
        kept_alive.server_config.keep_alive_secs == secs,
        kept_alive.server_config.sse_path == builder.server_config.sse_path,
        kept_alive.server_config.post_path == builder.server_config.post_path,
        kept_alive.server_config.mcp_id == builder.server_config.mcp_id,
        kept_alive.server_config.tool_filter == builder.server_config.tool_filter,
        kept_alive.server_config.stateful == builder.server_config.stateful,
        kept_alive.backend_config == builder.backend_config,
        with_sessions.server_config.stateful == stateful,
        with_sessions.server_config.sse_path == builder.server_config.sse_path,
        with_sessions.server_config.post_path == builder.server_config.post_path,
        with_sessions.server_config.mcp_id == builder.server_config.mcp_id,
        with_sessions.server_config.tool_filter == builder.server_config.tool_filter,
        with_sessions.server_config.keep_alive_secs == builder.server_config.keep_alive_secs,
        with_sessions.backend_config == builder.backend_config,
{
}

} // verus!
