//! Handlers that pass a client's requests on to a backend.
//!
//! A handler decides, before a request is sent, whether it goes to the backend
//! at all, and afterwards what the client is told. Sending is left to the
//! caller.

use std::sync::Arc;
use vstd::prelude::*;

use crate::backend_cell::{as_held, Backends};
use crate::text::{concat2, concat3, copy_opt, frames, opt_text};
use crate::tools::{
    filter_tools, is_on_the_list, lists_decide_which_tools_may_be_used,
    only_allowed_tools_are_visible, same_filters_let_the_same_through, visible_tools, ToolEntry,
    ToolFilter, ToolPage,
};

verus! {

/// What a client asks of a server.
#[derive(Clone, Copy, Debug, PartialEq, Eq, Structural)]
pub enum Method {
    ListTools,
    CallTool,
    ListResources,
    ReadResource,
    ListResourceTemplates,
    ListPrompts,
    GetPrompt,
    Complete,
}

impl Method {
    /// The name of the method on the wire.
    pub open spec fn wire_text(self) -> Seq<char> {
        match self {
            Method::ListTools => "tools/list"@,
            Method::CallTool => "tools/call"@,
            Method::ListResources => "resources/list"@,
            Method::ReadResource => "resources/read"@,
            Method::ListResourceTemplates => "resources/templates/list"@,
            Method::ListPrompts => "prompts/list"@,
            Method::GetPrompt => "prompts/get"@,
            Method::Complete => "completion/complete"@,
        }
    }

    /// What is put before the reason when the backend fails.
    pub open spec fn failure_text(self) -> Seq<char> {
        match self {
            Method::ListTools => "Error listing tools: "@,
            Method::CallTool => "Error: "@,
            Method::ListResources => "Error listing resources: "@,
            Method::ReadResource => "Error reading resource: "@,
            Method::ListResourceTemplates => "Error listing resource templates: "@,
            Method::ListPrompts => "Error listing prompts: "@,
            Method::GetPrompt => "Error getting prompt: "@,
            Method::Complete => "Error completing: "@,
        }
    }

    /// The method asks for a list, and its parameters may be left out.
    pub open spec fn lists(self) -> bool {
        self is ListTools || self is ListResources || self is ListResourceTemplates
            || self is ListPrompts
    }

    /// The name of the method on the wire.
    pub fn wire_name(self) -> (r: &'static str)
        ensures
            r@ == self.wire_text(),
    {
        match self {
            Method::ListTools => "tools/list",
            Method::CallTool => "tools/call",
            Method::ListResources => "resources/list",
            Method::ReadResource => "resources/read",
            Method::ListResourceTemplates => "resources/templates/list",
            Method::ListPrompts => "prompts/list",
            Method::GetPrompt => "prompts/get",
            Method::Complete => "completion/complete",
        }
    }

    fn failure_prefix(self) -> (r: &'static str)
        ensures
            r@ == self.failure_text(),
    {
        match self {
            Method::ListTools => "Error listing tools: ",
            Method::CallTool => "Error: ",
            Method::ListResources => "Error listing resources: ",
            Method::ReadResource => "Error reading resource: ",
            Method::ListResourceTemplates => "Error listing resource templates: ",
            Method::ListPrompts => "Error listing prompts: ",
            Method::GetPrompt => "Error getting prompt: ",
            Method::Complete => "Error completing: ",
        }
    }
}

/// `<Arc<C> as Clone>::clone`: another pointer to the same value.
#[verifier::external_body]
fn share<C>(value: &Arc<C>) -> (r: Arc<C>)
    ensures
        r == *value,
{
    value.clone()
}

fn share_opt<C>(value: &Option<Arc<C>>) -> (r: Option<Arc<C>>)
    ensures
        r == *value,
{
    match value {
        Some(v) => Some(share(v)),
        None => None,
    }
}

/// What a server can do: what decides which requests are passed on, and all that
/// it says of it, which clients are told as it is.
#[derive(Debug)]
pub struct Capabilities<C> {
    pub tools: bool,
    pub resources: bool,
    pub prompts: bool,
    /// None where nothing is said.
    pub all: Option<Arc<C>>,
}

impl<C> Capabilities<C> {
    /// A server can do nothing, and says nothing of it.
    pub open spec fn none() -> Capabilities<C> {
        Capabilities { tools: false, resources: false, prompts: false, all: None }
    }

    /// The server has what a method needs.
    pub open spec fn supports(self, method: Method) -> bool {
        match method {
            Method::ListTools | Method::CallTool => self.tools,
            Method::ListResources | Method::ReadResource | Method::ListResourceTemplates =>
                self.resources,
            Method::ListPrompts | Method::GetPrompt => self.prompts,
            Method::Complete => true,
        }
    }

    fn support(&self, method: Method) -> (r: bool)
        ensures
            r == self.supports(method),
    {
        match method {
            Method::ListTools | Method::CallTool => self.tools,
            Method::ListResources | Method::ReadResource | Method::ListResourceTemplates =>
                self.resources,
            Method::ListPrompts | Method::GetPrompt => self.prompts,
            Method::Complete => true,
        }
    }

    fn copy(&self) -> (r: Self)
        ensures
            r == *self,
    {
        Capabilities {
            tools: self.tools,
            resources: self.resources,
            prompts: self.prompts,
            all: share_opt(&self.all),
        }
    }
}

/// An icon of a server.
#[derive(Clone, Debug)]
pub struct Icon {
    pub src: String,
    pub mime_type: Option<String>,
    pub sizes: Option<Vec<String>>,
}

/// The protocol version that clients on server-sent events understand.
pub const SSE_PROTOCOL_VERSION: &'static str = "2024-11-05";

/// What a server says of itself.
#[derive(Debug)]
pub struct ServerInfo<C> {
    pub protocol_version: String,
    pub name: String,
    pub version: String,
    pub title: Option<String>,
    pub website_url: Option<String>,
    pub icons: Option<Arc<Vec<Icon>>>,
    pub instructions: Option<String>,
    pub capabilities: Capabilities<C>,
}

/// The contents of a [`ServerInfo`].
pub struct ServerInfoView<C> {
    pub protocol_version: Seq<char>,
    pub name: Seq<char>,
    pub version: Seq<char>,
    pub title: Option<Seq<char>>,
    pub website_url: Option<Seq<char>>,
    pub icons: Option<Arc<Vec<Icon>>>,
    pub instructions: Option<Seq<char>>,
    pub capabilities: Capabilities<C>,
}

impl<C> View for ServerInfo<C> {
    type V = ServerInfoView<C>;

    open spec fn view(&self) -> ServerInfoView<C> {
        ServerInfoView {
            protocol_version: self.protocol_version@,
            name: self.name@,
            version: self.version@,
            title: opt_text(self.title),
            website_url: opt_text(self.website_url),
            icons: self.icons,
            instructions: opt_text(self.instructions),
            capabilities: self.capabilities,
        }
    }
}

impl<C> ServerInfo<C> {
    /// What is said of a backend that says nothing of itself.
    pub open spec fn default_view() -> ServerInfoView<C> {
        ServerInfoView {
            protocol_version: SSE_PROTOCOL_VERSION@,
            name: "MCP Proxy"@,
            version: "0.1.0"@,
            title: None,
            website_url: None,
            icons: None,
            instructions: None,
            capabilities: Capabilities::none(),
        }
    }

    /// What is passed on of what a backend says of itself: its title, its website
    /// and its icons are not.
    pub open spec fn extracted(peer: Option<ServerInfo<C>>) -> ServerInfoView<C> {
        match peer {
            Some(info) => ServerInfoView {
                title: None,
                website_url: None,
                icons: None,
                ..info@
            },
            None => Self::default_view(),
        }
    }

    /// What clients are told of a backend behind a bridge: what it says of itself
    /// or, where that could not be read, what is said otherwise. Either way with
    /// the protocol version that they understand.
    pub open spec fn bridged(
        backend: Option<ServerInfo<C>>,
        otherwise: ServerInfo<C>,
    ) -> ServerInfoView<C> {
        ServerInfoView {
            protocol_version: SSE_PROTOCOL_VERSION@,
            ..(match backend {
                Some(info) => info@,
                None => otherwise@,
            })
        }
    }

    fn copy(&self) -> (r: Self)
        ensures
            r@ == self@,
    {
        ServerInfo {
            protocol_version: self.protocol_version.clone(),
            name: self.name.clone(),
            version: self.version.clone(),
            title: copy_opt(&self.title),
            website_url: copy_opt(&self.website_url),
            icons: share_opt(&self.icons),
            instructions: copy_opt(&self.instructions),
            capabilities: self.capabilities.copy(),
        }
    }
}

/// What is said of a backend that says nothing of itself.
pub fn default_server_info<C>() -> (r: ServerInfo<C>)
    ensures
        r@ == ServerInfo::<C>::default_view(),
{
    ServerInfo {
        protocol_version: SSE_PROTOCOL_VERSION.to_owned(),
        name: "MCP Proxy".to_owned(),
        version: "0.1.0".to_owned(),
        title: None,
        website_url: None,
        icons: None,
        instructions: None,
        capabilities: Capabilities { tools: false, resources: false, prompts: false, all: None },
    }
}

/// What is passed on of what a backend says of itself.
pub fn extract_server_info<C>(peer_info: &Option<ServerInfo<C>>) -> (r: ServerInfo<C>)
    ensures
        r@ == ServerInfo::extracted(*peer_info),
{
    match peer_info {
        Some(info) => ServerInfo {
            protocol_version: info.protocol_version.clone(),
            name: info.name.clone(),
            version: info.version.clone(),
            title: None,
            website_url: None,
            icons: None,
            instructions: copy_opt(&info.instructions),
            capabilities: info.capabilities.copy(),
        },
        None => default_server_info(),
    }
}

/// What is done with a request before it is sent.
#[derive(Clone, Debug)]
pub enum Gate {
    /// It goes to the backend.
    Forward,
    /// The answer is empty: the backend cannot do it.
    Empty,
    /// The request fails with this message.
    Fail(String),
}

/// The contents of a [`Gate`].
pub enum GateView {
    Forward,
    Empty,
    Fail(Seq<char>),
}

impl View for Gate {
    type V = GateView;

    open spec fn view(&self) -> GateView {
        match self {
            Gate::Forward => GateView::Forward,
            Gate::Empty => GateView::Empty,
            Gate::Fail(message) => GateView::Fail(message@),
        }
    }
}

/// What is done with a call of a tool before it is sent.
#[derive(Clone, Debug)]
pub enum CallGate {
    /// It goes to the backend.
    Forward,
    /// The tool is answered for, with this error.
    ToolError(String),
}

/// The contents of a [`CallGate`].
pub enum CallGateView {
    Forward,
    ToolError(Seq<char>),
}

impl View for CallGate {
    type V = CallGateView;

    open spec fn view(&self) -> CallGateView {
        match self {
            CallGate::Forward => CallGateView::Forward,
            CallGate::ToolError(message) => CallGateView::ToolError(message@),
        }
    }
}

/// What came of a request that was sent.
#[derive(Clone, Debug)]
pub enum Outcome<R> {
    /// The backend answered.
    Answered(R),
    /// The request failed, for this reason.
    Failed(String),
    /// The client took the request back before there was an answer.
    Cancelled,
}

/// What a client is told.
pub enum ReplyText<R> {
    /// This answer.
    Answer(R),
    /// That the request failed, with this message.
    Failure(Seq<char>),
}

/// The contents of a result.
pub open spec fn reply_text<R>(r: Result<R, String>) -> ReplyText<R> {
    match r {
        Ok(answer) => ReplyText::Answer(answer),
        Err(message) => ReplyText::Failure(message@),
    }
}

/// What a client is told of a request that was sent.
pub open spec fn finished<R>(method: Method, outcome: Outcome<R>) -> ReplyText<R> {
    match outcome {
        Outcome::Answered(answer) => ReplyText::Answer(answer),
        Outcome::Failed(reason) => ReplyText::Failure(method.failure_text() + reason@),
        Outcome::Cancelled => ReplyText::Failure("Request cancelled"@),
    }
}

/// What a client is told of a request that was sent.
pub fn finish<R>(method: Method, outcome: Outcome<R>) -> (r: Result<R, String>)
    ensures
        reply_text(r) == finished(method, outcome),
{
    match outcome {
        Outcome::Answered(answer) => Ok(answer),
        Outcome::Failed(reason) => Err(concat2(method.failure_prefix(), reason.as_str())),
        Outcome::Cancelled => Err("Request cancelled".to_owned()),
    }
}

/// Passes requests on to a backend that may be swapped at any time. The current
/// connection is in a slot, which the handler shares with its clones.
#[derive(Debug)]
pub struct SseHandler<C> {
    slot: usize,
    cached_info: ServerInfo<C>,
    mcp_id: String,
    tool_filter: ToolFilter,
}

impl<C> SseHandler<C> {
    /// Where the current connection is.
    pub closed spec fn slot(self) -> usize {
        self.slot
    }

    /// The number of the current connection, as a sequence of at most one.
    pub open spec fn connection(self, backends: Backends) -> Seq<u64> {
        backends.at(self.slot())
    }

    /// A handler that does what this one does: it shares its slot, and has the
    /// same name, the same filter and the same to say of the server.
    pub open spec fn same_as(self, other: SseHandler<C>) -> bool {
        &&& self.slot() == other.slot()
        &&& self.info() == other.info()
        &&& self.id() == other.id()
        &&& self.filter().same_as(other.filter())
    }

    /// There is a connection, and it is not closed.
    pub open spec fn reaches_backend(self, backends: Backends, transport_closed: bool) -> bool {
        self.connection(backends).len() > 0 && !transport_closed
    }

    /// What clients are told of the server.
    pub closed spec fn info(self) -> ServerInfoView<C> {
        self.cached_info@
    }

    /// The name of the service.
    pub closed spec fn id(self) -> Seq<char> {
        self.mcp_id@
    }

    /// Which tools may be used.
    pub closed spec fn filter(self) -> ToolFilter {
        self.tool_filter
    }

    /// What is done with a request before it is sent. A missing connection is
    /// noticed before a missing capability.
    pub open spec fn gate(
        self,
        backends: Backends,
        method: Method,
        transport_closed: bool,
    ) -> GateView {
        if self.connection(backends).len() == 0 {
            GateView::Fail("Backend connection is not available, reconnecting..."@)
        } else if transport_closed {
            GateView::Fail("Backend connection closed, please retry"@)
        } else if self.info().capabilities.supports(method) {
            GateView::Forward
        } else {
            GateView::Empty
        }
    }

    /// What is done with a call of a tool before it is sent. That a tool may not
    /// be used is noticed first.
    pub open spec fn call_gate(
        self,
        backends: Backends,
        name: Seq<char>,
        transport_closed: bool,
    ) -> CallGateView {
        if !self.filter().allows(name) {
            CallGateView::ToolError(
                "Tool '"@ + name + "' is not allowed by filter configuration"@,
            )
        } else if self.connection(backends).len() == 0 {
            CallGateView::ToolError("Backend connection is not available, reconnecting..."@)
        } else if transport_closed {
            CallGateView::ToolError("Backend connection closed, please retry"@)
        } else if self.info().capabilities.tools {
            CallGateView::Forward
        } else {
            CallGateView::ToolError("Server doesn't support tools capability"@)
        }
    }

    /// The handler has its slot among these backends.
    pub open spec fn belongs_to(self, backends: Backends) -> bool {
        self.slot() < backends@.len()
    }

    /// The handler's slot has been given a connection, or has been cleared. All
    /// other slots are as they were. Backends that the handler does not belong to
    /// stay as they are.
    pub open spec fn swapped(
        self,
        before: Backends,
        after: Backends,
        new_client: Option<u64>,
    ) -> bool {
        after@ == if self.belongs_to(before) {
            before@.update(self.slot() as int, as_held(new_client))
        } else {
            before@
        }
    }

    /// A handler whose backend is not connected yet.
    pub fn new_disconnected(
        backends: &mut Backends,
        mcp_id: String,
        tool_filter: ToolFilter,
        default_info: ServerInfo<C>,
    ) -> (r: Self)
        ensures
            r.slot() == old(backends)@.len(),
            r.belongs_to(*final(backends)),
            final(backends)@ == old(backends)@.push(Seq::<u64>::empty()),
            r.info() == default_info@,
            r.id() == mcp_id@,
            r.filter() == tool_filter,
    {
        SseHandler { slot: backends.add(None), cached_info: default_info, mcp_id, tool_filter }
    }

    /// A handler without a name that lets every tool through.
    pub fn new(backends: &mut Backends, client: u64, peer_info: &Option<ServerInfo<C>>) -> (r:
        Self)
        ensures
            r.slot() == old(backends)@.len(),
            r.belongs_to(*final(backends)),
            final(backends)@ == old(backends)@.push(seq![client]),
            r.info() == ServerInfo::extracted(*peer_info),
            r.id() == "unknown"@,
            !r.filter().enabled(),
    {
        Self::with_mcp_id(backends, client, peer_info, "unknown".to_owned())
    }

    /// A handler that lets every tool through.
    pub fn with_mcp_id(
        backends: &mut Backends,
        client: u64,
        peer_info: &Option<ServerInfo<C>>,
        mcp_id: String,
    ) -> (r: Self)
        ensures
            r.slot() == old(backends)@.len(),
            r.belongs_to(*final(backends)),
            final(backends)@ == old(backends)@.push(seq![client]),
            r.info() == ServerInfo::extracted(*peer_info),
            r.id() == mcp_id@,
            !r.filter().enabled(),
    {
        Self::with_tool_filter(backends, client, peer_info, mcp_id, ToolFilter::default())
    }

    /// A handler on the connection numbered `client`, whose backend says
    /// `peer_info` of itself.
    pub fn with_tool_filter(
        backends: &mut Backends,
        client: u64,
        peer_info: &Option<ServerInfo<C>>,
        mcp_id: String,
        tool_filter: ToolFilter,
    ) -> (r: Self)
        ensures
            r.slot() == old(backends)@.len(),
            r.belongs_to(*final(backends)),
            final(backends)@ == old(backends)@.push(seq![client]),
            r.info() == ServerInfo::extracted(*peer_info),
            r.id() == mcp_id@,
            r.filter() == tool_filter,
    {
        SseHandler {
            slot: backends.add(Some(client)),
            cached_info: extract_server_info(peer_info),
            mcp_id,
            tool_filter,
        }
    }

    /// Sets the current connection, or notes that there is none.
    pub fn swap_backend(&self, backends: &mut Backends, new_client: Option<u64>)
        ensures
            self.swapped(*old(backends), *final(backends), new_client),
    {
        backends.put(self.slot, new_client);
    }

    /// Sets the current connection, or notes that there is none.
    pub fn swap_backend_from_connection(&self, backends: &mut Backends, conn: Option<u64>)
        ensures
            self.swapped(*old(backends), *final(backends), conn),
    {
        match conn {
            Some(client) => self.swap_backend(backends, Some(client)),
            None => self.swap_backend(backends, None),
        }
    }

    /// The number of the current connection.
    pub fn backend(&self, backends: &Backends) -> (r: Option<u64>)
        ensures
            self.connection(*backends) == as_held(r),
    {
        backends.get(self.slot)
    }

    /// Whether a request can be sent, where `transport_closed` says whether the
    /// current connection is closed.
    pub fn is_backend_available(&self, backends: &Backends, transport_closed: bool) -> (r: bool)
        ensures
            r == self.reaches_backend(*backends, transport_closed),
    {
        match backends.get(self.slot) {
            Some(_) => !transport_closed,
            None => false,
        }
    }

    /// Whether no request can be sent.
    pub fn is_terminated(&self, backends: &Backends, transport_closed: bool) -> (r: bool)
        ensures
            r == !self.reaches_backend(*backends, transport_closed),
    {
        !self.is_backend_available(backends, transport_closed)
    }

    /// Whether the backend does not answer, where `probe_ok` says whether it
    /// listed its tools. It is only asked where a request can be sent.
    pub fn is_terminated_async(&self, backends: &Backends, transport_closed: bool, probe_ok: bool) -> (r: bool)
        ensures
            r == !(self.reaches_backend(*backends, transport_closed) && probe_ok),
    {
        !self.is_backend_available(backends, transport_closed) || !probe_ok
    }

    /// Whether the backend answers.
    pub fn is_mcp_server_ready(&self, backends: &Backends, transport_closed: bool, probe_ok: bool) -> (r: bool)
        ensures
            r == (self.reaches_backend(*backends, transport_closed) && probe_ok),
    {
        !self.is_terminated_async(backends, transport_closed, probe_ok)
    }

    /// The name of the service.
    pub fn mcp_id(&self) -> (r: &str)
        ensures
            r@ == self.id(),
    {
        self.mcp_id.as_str()
    }

    /// What clients are told of the server.
    pub fn get_info(&self) -> (r: ServerInfo<C>)
        ensures
            r@ == self.info(),
    {
        self.cached_info.copy()
    }

    fn admission(&self, backends: &Backends, method: Method, transport_closed: bool) -> (r: Gate)
        ensures
            r@ == self.gate(*backends, method, transport_closed),
    {
        match backends.get(self.slot) {
            None => Gate::Fail("Backend connection is not available, reconnecting...".to_owned()),
            Some(_) => if transport_closed {
                Gate::Fail("Backend connection closed, please retry".to_owned())
            } else if self.cached_info.capabilities.support(method) {
                Gate::Forward
            } else {
                Gate::Empty
            },
        }
    }

    /// What is done with a request for the list of tools.
    pub fn list_tools(&self, backends: &Backends, transport_closed: bool) -> (r: Gate)
        ensures
            r@ == self.gate(*backends, Method::ListTools, transport_closed),
    {
        self.admission(backends, Method::ListTools, transport_closed)
    }

    /// What the client is told of a request for the list of tools that was sent:
    /// of the backend's tools it sees those that it may use.
    pub fn list_tools_reply<T>(&self, outcome: Outcome<ToolPage<T>>) -> (r: Result<
        ToolPage<T>,
        String,
    >)
        ensures
            match outcome {
                Outcome::Answered(page) => {
                    &&& r is Ok
                    &&& r->Ok_0.tools@ == visible_tools(self.filter(), page.tools@)
                    &&& r->Ok_0.next_cursor == page.next_cursor
                },
                _ => reply_text(r) == finished(Method::ListTools, outcome),
            },
    {
        match finish(Method::ListTools, outcome) {
            Ok(page) => Ok(filter_tools(&self.tool_filter, page)),
            Err(message) => Err(message),
        }
    }

    /// What is done with a call of a tool.
    pub fn call_tool(&self, backends: &Backends, name: &str, transport_closed: bool) -> (r: CallGate)
        ensures
            r@ == self.call_gate(*backends, name@, transport_closed),
    {
        if !self.tool_filter.is_allowed(name) {
            return CallGate::ToolError(
                concat3("Tool '", name, "' is not allowed by filter configuration"),
            );
        }
        match backends.get(self.slot) {
            None => CallGate::ToolError(
                "Backend connection is not available, reconnecting...".to_owned(),
            ),
            Some(_) => if transport_closed {
                CallGate::ToolError("Backend connection closed, please retry".to_owned())
            } else if self.cached_info.capabilities.tools {
                CallGate::Forward
            } else {
                CallGate::ToolError("Server doesn't support tools capability".to_owned())
            },
        }
    }

    /// What the client is told of a call of a tool that was sent: the backend's
    /// answer, or an error that stands for the tool's answer.
    pub fn call_tool_reply<R>(&self, outcome: Outcome<R>) -> (r: Result<R, String>)
        ensures
            reply_text(r) == finished(Method::CallTool, outcome),
    {
        finish(Method::CallTool, outcome)
    }

    /// What is done with a request for the list of resources.
    pub fn list_resources(&self, backends: &Backends, transport_closed: bool) -> (r: Gate)
        ensures
            r@ == self.gate(*backends, Method::ListResources, transport_closed),
    {
        self.admission(backends, Method::ListResources, transport_closed)
    }

    /// What is done with a request for a resource.
    pub fn read_resource(&self, backends: &Backends, transport_closed: bool) -> (r: Gate)
        ensures
            r@ == self.gate(*backends, Method::ReadResource, transport_closed),
    {
        self.admission(backends, Method::ReadResource, transport_closed)
    }

    /// What is done with a request for the list of resource templates.
    pub fn list_resource_templates(&self, backends: &Backends, transport_closed: bool) -> (r: Gate)
        ensures
            r@ == self.gate(*backends, Method::ListResourceTemplates, transport_closed),
    {
        self.admission(backends, Method::ListResourceTemplates, transport_closed)
    }

    /// What is done with a request for the list of prompts.
    pub fn list_prompts(&self, backends: &Backends, transport_closed: bool) -> (r: Gate)
        ensures
            r@ == self.gate(*backends, Method::ListPrompts, transport_closed),
    {
        self.admission(backends, Method::ListPrompts, transport_closed)
    }

    /// What is done with a request for a prompt.
    pub fn get_prompt(&self, backends: &Backends, transport_closed: bool) -> (r: Gate)
        ensures
            r@ == self.gate(*backends, Method::GetPrompt, transport_closed),
    {
        self.admission(backends, Method::GetPrompt, transport_closed)
    }

    /// What is done with a request for a completion.
    pub fn complete(&self, backends: &Backends, transport_closed: bool) -> (r: Gate)
        ensures
            r@ == self.gate(*backends, Method::Complete, transport_closed),
    {
        self.admission(backends, Method::Complete, transport_closed)
    }

    /// Whether a note on progress is passed on.
    pub fn on_progress(&self, backends: &Backends, transport_closed: bool) -> (r: bool)
        ensures
            r == self.reaches_backend(*backends, transport_closed),
    {
        self.is_backend_available(backends, transport_closed)
    }

    /// Whether a note that a request was taken back is passed on.
    pub fn on_cancelled(&self, backends: &Backends, transport_closed: bool) -> (r: bool)
        ensures
            r == self.reaches_backend(*backends, transport_closed),
    {
        self.is_backend_available(backends, transport_closed)
    }
}

impl<C> Clone for SseHandler<C> {
    /// A handler that shares its backend with this one.
    fn clone(&self) -> (r: Self)
        ensures
            r.same_as(*self),
    {
        SseHandler {
            slot: self.slot,
            cached_info: self.cached_info.copy(),
            mcp_id: self.mcp_id.clone(),
            tool_filter: self.tool_filter.clone(),
        }
    }
}

/// A request to a backend behind a bridge.
#[derive(Clone, Debug)]
pub struct PeerRequest<P> {
    /// The name of the method on the wire.
    pub method: &'static str,
    /// The parameters, or none where null is sent.
    pub params: Option<P>,
}

/// What a client is told of a request that went over a bridge. The answer is
/// what it was read as, or the reason why it could not be read.
pub open spec fn bridged<R>(outcome: Outcome<Result<R, String>>) -> ReplyText<R> {
    match outcome {
        Outcome::Answered(Ok(answer)) => ReplyText::Answer(answer),
        Outcome::Answered(Err(reason)) => ReplyText::Failure("deserialize error: "@ + reason@),
        Outcome::Failed(reason) => ReplyText::Failure(reason@),
        Outcome::Cancelled => ReplyText::Failure("Request cancelled"@),
    }
}

/// Passes requests on to a backend behind a bridge.
#[derive(Debug)]
pub struct BackendSessionHandler<C> {
    mcp_id: String,
    cached_info: ServerInfo<C>,
}

impl<C> BackendSessionHandler<C> {
    /// What clients are told of the server.
    pub closed spec fn info(self) -> ServerInfoView<C> {
        self.cached_info@
    }

    /// The name of the service.
    pub closed spec fn id(self) -> Seq<char> {
        self.mcp_id@
    }

    /// A handler for a backend that says `backend_info` of itself. Where that
    /// could not be read, `default_info` is said. Either way clients are told
    /// the protocol version that they understand.
    pub fn new(
        mcp_id: String,
        backend_info: Option<ServerInfo<C>>,
        default_info: ServerInfo<C>,
    ) -> (r: Self)
        ensures
            r.id() == mcp_id@,
            r.info() == ServerInfo::bridged(backend_info, default_info),
    {
        let mut cached_info: ServerInfo<C> = match backend_info {
            Some(info) => info,
            None => default_info,
        };
        cached_info.protocol_version = SSE_PROTOCOL_VERSION.to_owned();
        BackendSessionHandler { mcp_id, cached_info }
    }

    /// The name of the service.
    pub fn mcp_id(&self) -> (r: &str)
        ensures
            r@ == self.id(),
    {
        self.mcp_id.as_str()
    }

    /// What clients are told of the server.
    pub fn get_info(&self) -> (r: ServerInfo<C>)
        ensures
            r@ == self.info(),
    {
        self.cached_info.copy()
    }

    /// What is sent for a request, where `params` are its parameters or the
    /// reason why they could not be written. A request for a list is then sent
    /// without them; any other fails.
    pub fn request<P>(&self, method: Method, params: Result<P, String>) -> (r: Result<
        PeerRequest<P>,
        String,
    >)
        ensures
            match r {
                Ok(request) => {
                    &&& params is Ok || method.lists()
                    &&& request.method@ == method.wire_text()
                    &&& request.params is Some == params is Ok
                    &&& params is Ok ==> request.params->0 == params->Ok_0
                },
                Err(message) => {
                    &&& params is Err && !method.lists()
                    &&& message@ == "serialize error: "@ + params->Err_0@
                },
            },
    {
        match params {
            Ok(p) => Ok(PeerRequest { method: method.wire_name(), params: Some(p) }),
            Err(reason) => match method {
                Method::ListTools
                | Method::ListResources
                | Method::ListResourceTemplates
                | Method::ListPrompts => Ok(
                    PeerRequest { method: method.wire_name(), params: None },
                ),
                _ => Err(concat2("serialize error: ", reason.as_str())),
            },
        }
    }

    /// What the client is told of a request that was sent.
    pub fn reply<R>(&self, outcome: Outcome<Result<R, String>>) -> (r: Result<R, String>)
        ensures
            reply_text(r) == bridged(outcome),
    {
        match outcome {
            Outcome::Answered(Ok(answer)) => Ok(answer),
            Outcome::Answered(Err(reason)) => Err(
                concat2("deserialize error: ", reason.as_str()),
            ),
            Outcome::Failed(reason) => Err(reason),
            Outcome::Cancelled => Err("Request cancelled".to_owned()),
        }
    }

    /// Whether a note on progress is passed on: a bridge carries none.
    pub fn on_progress(&self) -> (r: bool)
        ensures
            !r,
    {
        false
    }

    /// Whether a note that a request was taken back is passed on: a bridge
    /// carries none.
    pub fn on_cancelled(&self) -> (r: bool)
        ensures
            !r,
    {
        false
    }
}

impl<C> Clone for BackendSessionHandler<C> {
    fn clone(&self) -> (r: Self)
        ensures
            r.id() == self.id(),
            r.info() == self.info(),
    {
        BackendSessionHandler { mcp_id: self.mcp_id.clone(), cached_info: self.cached_info.copy() }
    }
}

/// The handler of a server for server-sent events.
#[derive(Debug)]
pub enum SseServerHandler<C> {
    /// The backend is a child process, or speaks server-sent events.
    Sse(SseHandler<C>),
    /// The backend is behind a bridge.
    BackendSession(BackendSessionHandler<C>),
}

impl<C> SseServerHandler<C> {
    /// The name of the service.
    pub open spec fn id(self) -> Seq<char> {
        match self {
            SseServerHandler::Sse(h) => h.id(),
            SseServerHandler::BackendSession(h) => h.id(),
        }
    }

    /// What clients are told of the server.
    pub open spec fn info(self) -> ServerInfoView<C> {
        match self {
            SseServerHandler::Sse(h) => h.info(),
            SseServerHandler::BackendSession(h) => h.info(),
        }
    }

    /// The name of the service.
    pub fn mcp_id(&self) -> (r: &str)
        ensures
            r@ == self.id(),
    {
        match self {
            SseServerHandler::Sse(h) => h.mcp_id(),
            SseServerHandler::BackendSession(h) => h.mcp_id(),
        }
    }

    /// What clients are told of the server.
    pub fn get_info(&self) -> (r: ServerInfo<C>)
        ensures
            r@ == self.info(),
    {
        match self {
            SseServerHandler::Sse(h) => h.get_info(),
            SseServerHandler::BackendSession(h) => h.get_info(),
        }
    }

    /// Whether a request can be sent, where `open` says whether the current
    /// connection, or the bridge, is open.
    pub fn is_backend_available(&self, backends: &Backends, open: bool) -> (r: bool)
        ensures
            r == match *self {
                SseServerHandler::Sse(h) => h.reaches_backend(*backends, !open),
                SseServerHandler::BackendSession(_) => open,
            },
    {
        match self {
            SseServerHandler::Sse(h) => h.is_backend_available(backends, !open),
            SseServerHandler::BackendSession(_) => open,
        }
    }

    /// Whether the backend answers, where `open` says whether the current
    /// connection is open and `probe_ok` what asking the backend, or the
    /// bridge, brought.
    pub fn is_mcp_server_ready(&self, backends: &Backends, open: bool, probe_ok: bool) -> (r: bool)
        ensures
            r == match *self {
                SseServerHandler::Sse(h) => h.reaches_backend(*backends, !open) && probe_ok,
                SseServerHandler::BackendSession(_) => probe_ok,
            },
    {
        match self {
            SseServerHandler::Sse(h) => h.is_mcp_server_ready(backends, !open, probe_ok),
            SseServerHandler::BackendSession(_) => probe_ok,
        }
    }

    /// Whether the backend does not answer; see
    /// [`SseServerHandler::is_mcp_server_ready`].
    pub fn is_terminated_async(&self, backends: &Backends, open: bool, probe_ok: bool) -> (r: bool)
        ensures
            r == match *self {
                SseServerHandler::Sse(h) => !(h.reaches_backend(*backends, !open) && probe_ok),
                SseServerHandler::BackendSession(_) => !probe_ok,
            },
    {
        match self {
            SseServerHandler::Sse(h) => h.is_terminated_async(backends, !open, probe_ok),
            SseServerHandler::BackendSession(_) => !probe_ok,
        }
    }
}

impl<C> Clone for SseServerHandler<C> {
    /// A handler that shares its backend with this one.
    fn clone(&self) -> (r: Self)
        ensures
            r.id() == self.id(),
            r.info() == self.info(),
            r is Sse == self is Sse,
            r is Sse ==> r->Sse_0.same_as(self->Sse_0),
    {
        match self {
            SseServerHandler::Sse(h) => SseServerHandler::Sse(h.clone()),
            SseServerHandler::BackendSession(h) => SseServerHandler::BackendSession(h.clone()),
        }
    }
}

/// Clients see all that a backend says of what it can do, and its instructions,
/// whether or not it is behind a bridge. Behind one they are told a protocol
/// version that they understand.
pub proof fn capabilities_are_handed_on_in_full<C>(info: ServerInfo<C>, otherwise: ServerInfo<C>)
    ensures
        ServerInfo::extracted(Some(info)).capabilities == info.capabilities,
        ServerInfo::bridged(Some(info), otherwise).capabilities == info.capabilities,
        ServerInfo::extracted(Some(info)).instructions == info@.instructions,
        ServerInfo::bridged(Some(info), otherwise).instructions == info@.instructions,
        ServerInfo::extracted(Some(info)).protocol_version == info.protocol_version@,
        ServerInfo::bridged(Some(info), otherwise).protocol_version == "2024-11-05"@,
{
}

/// A handler and its clone answer every request alike, whatever connections there
/// are.
pub proof fn clones_answer_alike<C>(
    handler: SseHandler<C>,
    clone: SseHandler<C>,
    backends: Backends,
    method: Method,
    name: Seq<char>,
    transport_closed: bool,
)
    requires
        clone.same_as(handler),
    ensures
        clone.connection(backends) == handler.connection(backends),
        clone.reaches_backend(backends, transport_closed) == handler.reaches_backend(
            backends,
            transport_closed,
        ),
        clone.gate(backends, method, transport_closed) == handler.gate(
            backends,
            method,
            transport_closed,
        ),
        clone.call_gate(backends, name, transport_closed) == handler.call_gate(
            backends,
            name,
            transport_closed,
        ),
{
}

/// A swap through one handler is seen by its clones, and by no handler of
/// another backend. What clients are told, the name and the filter of a handler
/// do not depend on its backend.
pub proof fn clones_share_their_backend<C>(
    handler: SseHandler<C>,
    clone: SseHandler<C>,
    other: SseHandler<C>,
    before: Backends,
    after: Backends,
    new_client: Option<u64>,
    transport_closed: bool,
)
    requires
        clone.same_as(handler),
        other.slot() != handler.slot(),
        handler.belongs_to(before),
        handler.swapped(before, after, new_client),
    ensures
        handler.belongs_to(after) && clone.belongs_to(after),
        handler.connection(after) == as_held(new_client),
        clone.connection(after) == as_held(new_client),
        clone.reaches_backend(after, transport_closed) <==> new_client is Some
            && !transport_closed,
        other.connection(after) == other.connection(before),
{
}

/// A tool that may not be used is never called, whatever the state of the
/// backend.
pub proof fn filtered_tool_is_never_called<C>(
    handler: SseHandler<C>,
    backends: Backends,
    name: Seq<char>,
    transport_closed: bool,
)
    requires
        !handler.filter().allows(name),
    ensures
        handler.call_gate(backends, name, transport_closed) == CallGateView::ToolError(
            "Tool '"@ + name + "' is not allowed by filter configuration"@,
        ),
{
}

/// While the backend is disconnected every request is refused at once.
pub proof fn disconnected_handler_refuses_everything<C>(
    handler: SseHandler<C>,
    backends: Backends,
    method: Method,
    name: Seq<char>,
    transport_closed: bool,
)
    requires
        handler.connection(backends).len() == 0,
    ensures
        handler.gate(backends, method, transport_closed) == GateView::Fail(
            "Backend connection is not available, reconnecting..."@,
        ),
        handler.call_gate(backends, name, transport_closed) is ToolError,
        !handler.reaches_backend(backends, transport_closed),
{
}

/// A request is only sent where it can be sent and the backend can do it.
pub proof fn forwards_what_the_backend_can_do<C>(
    handler: SseHandler<C>,
    backends: Backends,
    method: Method,
    name: Seq<char>,
    transport_closed: bool,
)
    ensures
        handler.gate(backends, method, transport_closed) == GateView::Forward <==> handler.reaches_backend(
            backends,
            transport_closed,
        ) && handler.info().capabilities.supports(method),
        handler.call_gate(backends, name, transport_closed) == CallGateView::Forward
            <==> handler.reaches_backend(backends, transport_closed) && handler.info().capabilities.tools
            && handler.filter().allows(name),
{
}

/// What the backend cannot do is answered with nothing, not refused.
pub proof fn missing_capability_gives_an_empty_answer<C>(
    handler: SseHandler<C>,
    backends: Backends,
    method: Method,
    transport_closed: bool,
)
    requires
        handler.reaches_backend(backends, transport_closed),
        !handler.info().capabilities.supports(method),
    ensures
        handler.gate(backends, method, transport_closed) == GateView::Empty,
{
}

/// Before a request is sent, the connection is looked at: whether there is one,
/// whether it is open, and whether the backend can do what is asked. A completion
/// needs nothing of it.
pub proof fn connection_and_capabilities_decide<C>(
    handler: SseHandler<C>,
    backends: Backends,
    method: Method,
    transport_closed: bool,
)
    ensures
        ({
            let gate = handler.gate(backends, method, transport_closed);
            let able = match method {
                Method::ListTools => handler.info().capabilities.tools,
                Method::CallTool => handler.info().capabilities.tools,
                Method::ListResources => handler.info().capabilities.resources,
                Method::ReadResource => handler.info().capabilities.resources,
                Method::ListResourceTemplates => handler.info().capabilities.resources,
                Method::ListPrompts => handler.info().capabilities.prompts,
                Method::GetPrompt => handler.info().capabilities.prompts,
                Method::Complete => true,
            };
            let connected = handler.slot() < backends@.len()
                && backends@[handler.slot() as int].len() > 0;
            &&& handler.reaches_backend(backends, transport_closed) <==> connected
                && !transport_closed
            &&& !connected ==> gate == GateView::Fail(
                "Backend connection is not available, reconnecting..."@,
            )
            &&& connected && transport_closed ==> gate == GateView::Fail(
                "Backend connection closed, please retry"@,
            )
            &&& connected && !transport_closed && able ==> gate == GateView::Forward
            &&& connected && !transport_closed && !able ==> gate == GateView::Empty
        }),
{
}

/// A tool that is not on the list of allowed tools, or is on that of denied ones,
/// is never called: its caller is told so, under its whole name. Every other tool
/// is called where there is an open connection to a backend that has tools, and
/// its caller is told where there is none.
pub proof fn lists_decide_which_tools_are_called<C>(
    handler: SseHandler<C>,
    backends: Backends,
    name: Seq<char>,
    transport_closed: bool,
)
    ensures
        ({
            let gate = handler.call_gate(backends, name, transport_closed);
            let allowed = handler.filter().allow_tools is None || is_on_the_list(
                handler.filter().allow_tools,
                name,
            );
            let denied = is_on_the_list(handler.filter().deny_tools, name);
            let connected = handler.slot() < backends@.len()
                && backends@[handler.slot() as int].len() > 0;
            if !allowed || denied {
                gate is ToolError && frames(
                    gate->ToolError_0,
                    "Tool '"@,
                    name,
                    "' is not allowed by filter configuration"@,
                )
            } else if !connected {
                gate == CallGateView::ToolError(
                    "Backend connection is not available, reconnecting..."@,
                )
            } else if transport_closed {
                gate == CallGateView::ToolError("Backend connection closed, please retry"@)
            } else if !handler.info().capabilities.tools {
                gate == CallGateView::ToolError("Server doesn't support tools capability"@)
            } else {
                gate is Forward
            }
        }),
{
    lists_decide_which_tools_may_be_used(handler.filter(), name);
}

/// A client gets the backend's answer as it is. Where a request fails, it gets
/// the whole reason, behind what the method says of it; where the client took the
/// request back, it is told so.
pub proof fn answers_and_reasons_are_handed_on<R>(
    method: Method,
    outcome: Outcome<R>,
    r: Result<R, String>,
)
    requires
        reply_text(r) == finished(method, outcome),
    ensures
        match outcome {
            Outcome::Answered(answer) => r is Ok && r->Ok_0 == answer,
            Outcome::Failed(reason) => r is Err && frames(
                r->Err_0@,
                method.failure_text(),
                reason@,
                Seq::empty(),
            ),
            Outcome::Cancelled => r is Err && r->Err_0@ == "Request cancelled"@,
        },
{
}

/// Over a bridge, too, a client gets the backend's answer as it is, and the whole
/// reason where there is none or where it cannot be read.
pub proof fn bridge_hands_answers_on<R>(
    outcome: Outcome<Result<R, String>>,
    r: Result<R, String>,
)
    requires
        reply_text(r) == bridged(outcome),
    ensures
        match outcome {
            Outcome::Answered(Ok(answer)) => r is Ok && r->Ok_0 == answer,
            Outcome::Answered(Err(reason)) => r is Err && frames(
                r->Err_0@,
                "deserialize error: "@,
                reason@,
                Seq::empty(),
            ),
            Outcome::Failed(reason) => r is Err && r->Err_0@ == reason@,
            Outcome::Cancelled => r is Err && r->Err_0@ == "Request cancelled"@,
        },
{
}

/// Clients see the whole name, version and instructions of a backend. Of one that
/// is not behind a bridge they do not see the title, the website and the icons;
/// of one that is, they see everything but its protocol version.
pub proof fn clients_see_what_the_backend_says<C>(
    info: ServerInfo<C>,
    otherwise: ServerInfo<C>,
)
    ensures
        ({
            let seen = ServerInfo::extracted(Some(info));
            &&& seen.protocol_version == info.protocol_version@
            &&& seen.name == info.name@ && seen.version == info.version@
            &&& seen.instructions is Some <==> info.instructions is Some
            &&& info.instructions is Some ==> seen.instructions->0 == info.instructions->0@
            &&& seen.title is None && seen.website_url is None && seen.icons is None
            &&& seen.capabilities == info.capabilities
        }),
        ({
            let seen = ServerInfo::bridged(Some(info), otherwise);
            &&& seen.protocol_version == "2024-11-05"@
            &&& seen.name == info.name@ && seen.version == info.version@
            &&& seen.instructions is Some <==> info.instructions is Some
            &&& info.instructions is Some ==> seen.instructions->0 == info.instructions->0@
            &&& seen.title is Some <==> info.title is Some
            &&& info.title is Some ==> seen.title->0 == info.title->0@
            &&& seen.website_url is Some <==> info.website_url is Some
            &&& info.website_url is Some ==> seen.website_url->0 == info.website_url->0@
            &&& seen.icons == info.icons
            &&& seen.capabilities == info.capabilities
            &&& ServerInfo::bridged(None, info) == seen
        }),
{
}

/// A backend that says nothing of itself is said to do nothing.
pub proof fn silent_backend_can_do_nothing<C>(method: Method)
    ensures
        ({
            let seen = ServerInfo::<C>::extracted(None);
            &&& seen.protocol_version == "2024-11-05"@
            &&& seen.name == "MCP Proxy"@ && seen.version == "0.1.0"@
            &&& seen.instructions is None && seen.title is None
            &&& seen.website_url is None && seen.icons is None
            &&& seen.capabilities.all is None
            &&& seen.capabilities.supports(method) <==> method is Complete
        }),
{
}

/// A swap puts a connection into the slot of the handler, or clears it, and
/// leaves every other slot alone.
pub proof fn swap_changes_one_slot<C>(
    handler: SseHandler<C>,
    before: Backends,
    after: Backends,
    new_client: Option<u64>,
    other: usize,
)
    requires
        handler.swapped(before, after, new_client),
    ensures
        after@.len() == before@.len(),
        handler.slot() < before@.len() && new_client is Some ==> handler.connection(after)
            == seq![new_client->0],
        handler.slot() < before@.len() && new_client is None ==> handler.connection(after).len()
            == 0,
        other != handler.slot() ==> after.at(other) == before.at(other),
        handler.slot() >= before@.len() ==> handler.connection(after).len() == 0,
{
}

/// A clone has the slot and the name of its handler, filters by the same lists
/// and tells clients the same.
pub proof fn clone_is_the_same_handler<C>(
    handler: SseHandler<C>,
    clone: SseHandler<C>,
    name: Seq<char>,
)
    requires
        clone.same_as(handler),
    ensures
        clone.slot() == handler.slot(),
        clone.id() == handler.id(),
        clone.info() == handler.info(),
        clone.filter().allow_tools is Some == handler.filter().allow_tools is Some,
        clone.filter().deny_tools is Some == handler.filter().deny_tools is Some,
        is_on_the_list(clone.filter().allow_tools, name) == is_on_the_list(
            handler.filter().allow_tools,
            name,
        ),
        is_on_the_list(clone.filter().deny_tools, name) == is_on_the_list(
            handler.filter().deny_tools,
            name,
        ),
{
    same_filters_let_the_same_through(clone.filter(), handler.filter(), name);
}

/// Each request is let through for what it asks for: for tools where the backend
/// has tools, for resources and their templates where it has resources, for
/// prompts where it has prompts, and for a completion always. What it cannot do is
/// answered with nothing.
pub proof fn requests_need_what_they_ask_for<C>(
    handler: &SseHandler<C>,
    backends: &Backends,
    tools: Gate,
    resources: Gate,
    resource: Gate,
    templates: Gate,
    prompts: Gate,
    prompt: Gate,
    completion: Gate,
)
    requires
        handler.reaches_backend(*backends, false),
        call_ensures(SseHandler::<C>::list_tools, (handler, backends, false), tools),
        call_ensures(SseHandler::<C>::list_resources, (handler, backends, false), resources),
        call_ensures(SseHandler::<C>::read_resource, (handler, backends, false), resource),
        call_ensures(
            SseHandler::<C>::list_resource_templates,
            (handler, backends, false),
            templates,
        ),
        call_ensures(SseHandler::<C>::list_prompts, (handler, backends, false), prompts),
        call_ensures(SseHandler::<C>::get_prompt, (handler, backends, false), prompt),
        call_ensures(SseHandler::<C>::complete, (handler, backends, false), completion),
    ensures
        tools is Forward <==> handler.info().capabilities.tools,
        tools is Empty <==> !handler.info().capabilities.tools,
        resources is Forward <==> handler.info().capabilities.resources,
        resources is Empty <==> !handler.info().capabilities.resources,
        resource is Forward <==> handler.info().capabilities.resources,
        resource is Empty <==> !handler.info().capabilities.resources,
        templates is Forward <==> handler.info().capabilities.resources,
        templates is Empty <==> !handler.info().capabilities.resources,
        prompts is Forward <==> handler.info().capabilities.prompts,
        prompts is Empty <==> !handler.info().capabilities.prompts,
        prompt is Forward <==> handler.info().capabilities.prompts,
        prompt is Empty <==> !handler.info().capabilities.prompts,
        completion is Forward,
{
}

/// Without an open connection every request fails alike, and says why.
pub proof fn requests_fail_alike_without_a_connection<C>(
    handler: &SseHandler<C>,
    backends: &Backends,
    closed: bool,
    tools: Gate,
    resources: Gate,
    resource: Gate,
    templates: Gate,
    prompts: Gate,
    prompt: Gate,
    completion: Gate,
)
    requires
        !handler.reaches_backend(*backends, closed),
        call_ensures(SseHandler::<C>::list_tools, (handler, backends, closed), tools),
        call_ensures(SseHandler::<C>::list_resources, (handler, backends, closed), resources),
        call_ensures(SseHandler::<C>::read_resource, (handler, backends, closed), resource),
        call_ensures(
            SseHandler::<C>::list_resource_templates,
            (handler, backends, closed),
            templates,
        ),
        call_ensures(SseHandler::<C>::list_prompts, (handler, backends, closed), prompts),
        call_ensures(SseHandler::<C>::get_prompt, (handler, backends, closed), prompt),
        call_ensures(SseHandler::<C>::complete, (handler, backends, closed), completion),
    ensures
        tools is Fail,
        tools->Fail_0@ == if handler.connection(*backends).len() == 0 {
            "Backend connection is not available, reconnecting..."@
        } else {
            "Backend connection closed, please retry"@
        },
        resources@ == tools@,
        resource@ == tools@,
        templates@ == tools@,
        prompts@ == tools@,
        prompt@ == tools@,
        completion@ == tools@,
{
}

/// A call of a tool goes through exactly where the lists let it, there is an open
/// connection and the backend has tools; else the caller gets an error for the
/// tool.
pub proof fn allowed_tools_are_called<C>(
    handler: &SseHandler<C>,
    backends: &Backends,
    name: &str,
    closed: bool,
    r: CallGate,
)
    requires
        call_ensures(SseHandler::<C>::call_tool, (handler, backends, name, closed), r),
    ensures
        ({
            let filter = handler.filter();
            let allowed = (filter.allow_tools is None || is_on_the_list(
                filter.allow_tools,
                name@,
            )) && !is_on_the_list(filter.deny_tools, name@);
            &&& r is Forward <==> allowed && handler.reaches_backend(*backends, closed)
                && handler.info().capabilities.tools
            &&& !allowed ==> r is ToolError && frames(
                r->ToolError_0@,
                "Tool '"@,
                name@,
                "' is not allowed by filter configuration"@,
            )
        }),
{
    lists_decide_which_tools_are_called(*handler, *backends, name@, closed);
}

/// A client that asks for tools sees, of those that the backend listed, each one
/// that it may call, and no other.
pub proof fn client_sees_the_tools_that_it_may_call<C, T>(
    handler: &SseHandler<C>,
    page: ToolPage<T>,
    r: Result<ToolPage<T>, String>,
    tool: ToolEntry<T>,
)
    requires
        call_ensures(
            SseHandler::<C>::list_tools_reply::<T>,
            (handler, Outcome::Answered(page)),
            r,
        ),
    ensures
        r is Ok,
        r->Ok_0.next_cursor == page.next_cursor,
        r->Ok_0.tools@.contains(tool) <==> page.tools@.contains(tool) && (
        handler.filter().allow_tools is None || is_on_the_list(
            handler.filter().allow_tools,
            tool.name@,
        )) && !is_on_the_list(handler.filter().deny_tools, tool.name@),
{
    only_allowed_tools_are_visible(handler.filter(), page.tools@, tool);
    lists_decide_which_tools_may_be_used(handler.filter(), tool.name@);
}

/// A handler can send exactly where there is an open connection in its slot, and
/// is ready where its backend answers as well. Notes to the backend go out where
/// it can send.
pub proof fn readiness_is_read_off_the_connection<C>(
    handler: &SseHandler<C>,
    backends: &Backends,
    closed: bool,
    probe_ok: bool,
    number: Option<u64>,
    available: bool,
    terminated: bool,
    ready: bool,
    silent: bool,
    progress: bool,
    cancelled: bool,
)
    requires
        call_ensures(SseHandler::<C>::backend, (handler, backends), number),
        call_ensures(SseHandler::<C>::is_backend_available, (handler, backends, closed), available),
        call_ensures(SseHandler::<C>::is_terminated, (handler, backends, closed), terminated),
        call_ensures(
            SseHandler::<C>::is_mcp_server_ready,
            (handler, backends, closed, probe_ok),
            ready,
        ),
        call_ensures(
            SseHandler::<C>::is_terminated_async,
            (handler, backends, closed, probe_ok),
            silent,
        ),
        call_ensures(SseHandler::<C>::on_progress, (handler, backends, closed), progress),
        call_ensures(SseHandler::<C>::on_cancelled, (handler, backends, closed), cancelled),
    ensures
        available <==> number is Some && !closed,
        terminated <==> !available,
        ready <==> available && probe_ok,
        silent <==> !ready,
        progress <==> available,
        cancelled <==> available,
        number is Some ==> handler.slot() < backends@.len() && backends@[handler.slot() as int]
            == seq![number->0],
{
}

/// Over a bridge a request is sent under the name of its method, with its
/// parameters. Where those could not be written, a list is asked for without
/// them, and anything else fails with the whole reason.
pub proof fn bridge_sends_what_it_is_given<C, P>(
    handler: &BackendSessionHandler<C>,
    method: Method,
    params: Result<P, String>,
    r: Result<PeerRequest<P>, String>,
)
    requires
        call_ensures(BackendSessionHandler::<C>::request::<P>, (handler, method, params), r),
    ensures
        ({
            let list = method is ListTools || method is ListResources || method
                is ListResourceTemplates || method is ListPrompts;
            &&& r is Ok <==> params is Ok || list
            &&& r is Ok ==> r->Ok_0.method@ == method.wire_text()
            &&& params is Ok ==> r->Ok_0.params is Some && r->Ok_0.params->0 == params->Ok_0
            &&& params is Err && list ==> r->Ok_0.params is None
            &&& r is Err ==> frames(
                r->Err_0@,
                "serialize error: "@,
                params->Err_0@,
                Seq::empty(),
            )
        }),
{
}

/// The names of the methods on the wire are all different, and so is what is said
/// when they fail.
pub proof fn methods_are_told_apart(a: Method, b: Method)
    requires
        a != b,
    ensures
        a.wire_text() != b.wire_text(),
        a.failure_text() != b.failure_text(),
{
    reveal_strlit("tools/list");
    reveal_strlit("tools/call");
    reveal_strlit("resources/list");
    reveal_strlit("resources/read");
    reveal_strlit("resources/templates/list");
    reveal_strlit("prompts/list");
    reveal_strlit("prompts/get");
    reveal_strlit("completion/complete");
    reveal_strlit("Error listing tools: ");
    reveal_strlit("Error: ");
    reveal_strlit("Error listing resources: ");
    reveal_strlit("Error reading resource: ");
    reveal_strlit("Error listing resource templates: ");
    reveal_strlit("Error listing prompts: ");
    reveal_strlit("Error getting prompt: ");
    reveal_strlit("Error completing: ");
    assert("tools/list"@[6] == 'l' && "tools/call"@[6] == 'c');
    assert("resources/list"@[10] == 'l' && "resources/read"@[10] == 'r');
    assert("tools/list"@.len() == 10);
    assert("tools/call"@.len() == 10);
    assert("resources/list"@.len() == 14);
    assert("resources/read"@.len() == 14);
    assert("resources/templates/list"@.len() == 24);
    assert("prompts/list"@.len() == 12);
    assert("prompts/get"@.len() == 11);
    assert("completion/complete"@.len() == 19);
    assert("Error listing tools: "@.len() == 21);
    assert("Error: "@.len() == 7);
    assert("Error listing resources: "@.len() == 25);
    assert("Error reading resource: "@.len() == 24);
    assert("Error listing resource templates: "@.len() == 34);
    assert("Error listing prompts: "@.len() == 23);
    assert("Error getting prompt: "@.len() == 22);
    assert("Error completing: "@.len() == 18);
}

/// Behind either kind of server a handler has the name and tells the same as the
/// handler that it is made of; behind a bridge it is the bridge that is asked.
pub proof fn server_handler_stands_for_its_handler<C>(
    handler: &SseServerHandler<C>,
    backends: &Backends,
    open: bool,
    probe_ok: bool,
    available: bool,
    ready: bool,
    silent: bool,
)
    requires
        call_ensures(
            SseServerHandler::<C>::is_backend_available,
            (handler, backends, open),
            available,
        ),
        call_ensures(
            SseServerHandler::<C>::is_mcp_server_ready,
            (handler, backends, open, probe_ok),
            ready,
        ),
        call_ensures(
            SseServerHandler::<C>::is_terminated_async,
            (handler, backends, open, probe_ok),
            silent,
        ),
    ensures
        handler is BackendSession ==> handler.id() == handler->BackendSession_0.id()
            && handler.info() == handler->BackendSession_0.info(),
        handler is Sse ==> handler.id() == handler->Sse_0.id() && handler.info()
            == handler->Sse_0.info(),
        handler is BackendSession ==> available == open && ready == probe_ok,
        handler is Sse ==> (available <==> open && handler->Sse_0.connection(*backends).len() > 0),
        handler is Sse ==> (ready <==> available && probe_ok),
        silent <==> !ready,
{
}

/// A handler that is made for a connection takes a new slot, which holds that
/// connection. It has the name and the filter that it is given, and tells clients
/// what the backend says of itself.
pub proof fn new_handler_has_its_connection<C>(
    client: u64,
    peer_info: &Option<ServerInfo<C>>,
    mcp_id: String,
    tool_filter: ToolFilter,
    r: SseHandler<C>,
    other: usize,
)
    ensures
        forall|b: &mut Backends|
            #![trigger call_ensures(SseHandler::<C>::with_tool_filter, (b, client, peer_info, mcp_id, tool_filter), r)]
            call_ensures(
                SseHandler::<C>::with_tool_filter,
                (b, client, peer_info, mcp_id, tool_filter),
                r,
            ) ==> {
                &&& r.slot() >= (*b)@.len()
                &&& r.connection(*final(b)) == seq![client]
                &&& r.id() == mcp_id@
                &&& r.filter() == tool_filter
                &&& r.info() == ServerInfo::extracted(*peer_info)
                &&& other != r.slot() ==> final(b).at(other) == (*b).at(other)
            },
        forall|b: &mut Backends|
            #![trigger call_ensures(SseHandler::<C>::with_mcp_id, (b, client, peer_info, mcp_id), r)]
            call_ensures(SseHandler::<C>::with_mcp_id, (b, client, peer_info, mcp_id), r) ==> {
                &&& r.slot() >= (*b)@.len()
                &&& r.connection(*final(b)) == seq![client]
                &&& r.id() == mcp_id@
                &&& r.filter().allow_tools is None && r.filter().deny_tools is None
                &&& r.info() == ServerInfo::extracted(*peer_info)
                &&& other != r.slot() ==> final(b).at(other) == (*b).at(other)
            },
        forall|b: &mut Backends|
            #![trigger call_ensures(SseHandler::<C>::new, (b, client, peer_info), r)]
            call_ensures(SseHandler::<C>::new, (b, client, peer_info), r) ==> {
                &&& r.slot() >= (*b)@.len()
                &&& r.connection(*final(b)) == seq![client]
                &&& r.filter().allow_tools is None && r.filter().deny_tools is None
                &&& r.info() == ServerInfo::extracted(*peer_info)
                &&& other != r.slot() ==> final(b).at(other) == (*b).at(other)
            },
{
}

/// A handler that is made before its backend is connected takes a new slot, which
/// is empty, so it sends nothing yet.
pub proof fn disconnected_handler_has_no_connection<C>(
    mcp_id: String,
    tool_filter: ToolFilter,
    default_info: ServerInfo<C>,
    r: SseHandler<C>,
    closed: bool,
    other: usize,
)
    ensures
        forall|b: &mut Backends|
            #![trigger call_ensures(SseHandler::<C>::new_disconnected, (b, mcp_id, tool_filter, default_info), r)]
            call_ensures(
                SseHandler::<C>::new_disconnected,
                (b, mcp_id, tool_filter, default_info),
                r,
            ) ==> {
                &&& r.slot() >= (*b)@.len()
                &&& r.belongs_to(*final(b))
                &&& !r.reaches_backend(*final(b), closed)
                &&& r.id() == mcp_id@
                &&& r.filter() == tool_filter
                &&& r.info() == default_info@
                &&& other != r.slot() ==> final(b).at(other) == (*b).at(other)
            },
{
}

/// What is swapped in through a handler is the connection that it uses from then
/// on, whichever way it is swapped in. Other slots are left alone.
pub proof fn swapped_connection_is_used<C>(
    handler: &SseHandler<C>,
    new_client: Option<u64>,
    other: usize,
)
    ensures
        forall|b: &mut Backends|
            #![trigger call_ensures(SseHandler::<C>::swap_backend, (handler, b, new_client), ())]
            call_ensures(SseHandler::<C>::swap_backend, (handler, b, new_client), ())
                && handler.belongs_to(*b) ==> {
                &&& handler.belongs_to(*final(b))
                &&& new_client is Some ==> handler.connection(*final(b)) == seq![new_client->0]
                &&& new_client is None ==> handler.connection(*final(b)).len() == 0
                &&& other != handler.slot() ==> final(b).at(other) == (*b).at(other)
            },
        forall|b: &mut Backends|
            #![trigger call_ensures(SseHandler::<C>::swap_backend_from_connection, (handler, b, new_client), ())]
            call_ensures(
                SseHandler::<C>::swap_backend_from_connection,
                (handler, b, new_client),
                (),
            ) && handler.belongs_to(*b) ==> {
                &&& handler.belongs_to(*final(b))
                &&& new_client is Some ==> handler.connection(*final(b)) == seq![new_client->0]
                &&& new_client is None ==> handler.connection(*final(b)).len() == 0
                &&& other != handler.slot() ==> final(b).at(other) == (*b).at(other)
            },
{
}

/// What a client is told is what came of its request: the answer of the backend
/// as it is, or the whole reason why there is none.
pub proof fn client_is_told_what_came_of_it<C, R>(
    handler: &SseHandler<C>,
    bridge: &BackendSessionHandler<C>,
    method: Method,
    outcome: Outcome<R>,
    r: Result<R, String>,
    call: Result<R, String>,
    read: Outcome<Result<R, String>>,
    over_bridge: Result<R, String>,
)
    requires
        call_ensures(finish::<R>, (method, outcome), r),
        call_ensures(SseHandler::<C>::call_tool_reply::<R>, (handler, outcome), call),
        call_ensures(BackendSessionHandler::<C>::reply::<R>, (bridge, read), over_bridge),
    ensures
        r is Ok <==> outcome is Answered,
        r is Ok ==> r->Ok_0 == outcome->Answered_0,
        outcome is Failed ==> frames(
            r->Err_0@,
            method.failure_text(),
            outcome->Failed_0@,
            Seq::empty(),
        ),
        outcome is Cancelled ==> r->Err_0@ == "Request cancelled"@,
        call is Ok <==> outcome is Answered,
        call is Ok ==> call->Ok_0 == outcome->Answered_0,
        outcome is Failed ==> frames(call->Err_0@, "Error: "@, outcome->Failed_0@, Seq::empty()),
        over_bridge is Ok <==> read is Answered && read->Answered_0 is Ok,
        over_bridge is Ok ==> over_bridge->Ok_0 == read->Answered_0->Ok_0,
        read is Failed ==> over_bridge->Err_0@ == read->Failed_0@,
        read is Answered && read->Answered_0 is Err ==> frames(
            over_bridge->Err_0@,
            "deserialize error: "@,
            read->Answered_0->Err_0@,
            Seq::empty(),
        ),
{
    answers_and_reasons_are_handed_on(method, outcome, r);
    answers_and_reasons_are_handed_on(Method::CallTool, outcome, call);
    bridge_hands_answers_on(read, over_bridge);
}

/// What a handler says of its server is what the backend said of itself.
pub proof fn handlers_say_what_the_backend_said<C>(
    info: ServerInfo<C>,
    otherwise: ServerInfo<C>,
    mcp_id: String,
    extracted: ServerInfo<C>,
    bridge: BackendSessionHandler<C>,
    said: ServerInfo<C>,
)
    requires
        call_ensures(extract_server_info::<C>, (&Some(info),), extracted),
        call_ensures(BackendSessionHandler::<C>::new, (mcp_id, Some(info), otherwise), bridge),
        call_ensures(BackendSessionHandler::<C>::get_info, (&bridge,), said),
    ensures
        extracted.name@ == info.name@ && extracted.version@ == info.version@,
        extracted.protocol_version@ == info.protocol_version@,
        extracted.instructions is Some <==> info.instructions is Some,
        info.instructions is Some ==> extracted.instructions->0@ == info.instructions->0@,
        extracted.title is None && extracted.website_url is None && extracted.icons is None,
        extracted.capabilities == info.capabilities,
        bridge.id() == mcp_id@,
        said.name@ == info.name@ && said.version@ == info.version@,
        said.protocol_version@ == "2024-11-05"@,
        said.title is Some <==> info.title is Some,
        info.title is Some ==> said.title->0@ == info.title->0@,
        said.instructions is Some <==> info.instructions is Some,
        info.instructions is Some ==> said.instructions->0@ == info.instructions->0@,
        said.icons == info.icons,
        said.capabilities == info.capabilities,
{
}

/// A handler gives its whole name, and what it says of its server is all that it
/// was made to say.
pub proof fn handler_tells_its_name_and_its_server<C>(
    handler: &SseHandler<C>,
    name: &str,
    said: ServerInfo<C>,
)
    requires
        call_ensures(SseHandler::<C>::mcp_id, (handler,), name),
        call_ensures(SseHandler::<C>::get_info, (handler,), said),
    ensures
        name@ == handler.id(),
        said.name@ == handler.info().name && said.version@ == handler.info().version,
        said.protocol_version@ == handler.info().protocol_version,
        said.instructions is Some <==> handler.info().instructions is Some,
        said.instructions is Some ==> said.instructions->0@ == handler.info().instructions->0,
        said.title is Some <==> handler.info().title is Some,
        said.title is Some ==> said.title->0@ == handler.info().title->0,
        said.website_url is Some <==> handler.info().website_url is Some,
        said.website_url is Some ==> said.website_url->0@ == handler.info().website_url->0,
        said.icons == handler.info().icons,
        said.capabilities == handler.info().capabilities,
{
}

} // verus!
