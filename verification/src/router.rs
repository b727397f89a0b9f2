//! Routing of one request to the service it names.
//!
//! A request names a service by its path. Where the service runs and is
//! healthy, the request is forwarded to it. Where it does not, it is started
//! first, from the configuration that came with the request or from the one
//! that was registered last. All of this is a state machine: [`begin`] and
//! [`step`] say what to do next, the caller does it and reports what came of
//! it.

use vstd::prelude::*;

use crate::model::{McpType, ServiceStatus};
use crate::text::{concat2, concat3, frames};

verus! {

/// How long a request waits for a service that is starting, in milliseconds.
pub const WAIT_LIMIT_MS: u64 = 15_000;

/// How long a request sleeps between two looks at such a service.
pub const POLL_INTERVAL_MS: u64 = 150;

/// What a request path names.
#[derive(Clone, Debug)]
pub struct RouterPath {
    pub mcp_id: String,
    pub base_path: String,
}

/// A configuration that came with a request.
#[derive(Clone, Debug)]
pub struct HeaderConfig {
    pub mcp_id: String,
    /// Whether it says how to start the service.
    pub has_json: bool,
}

/// What the decisions read of a request.
#[derive(Clone, Debug)]
pub struct RouterRequest {
    pub path: String,
    /// What the path names, where it can be read.
    pub route: Option<RouterPath>,
    pub header_config: Option<HeaderConfig>,
}

impl RouterRequest {
    /// The service that the path names.
    pub open spec fn id(self) -> Seq<char> {
        self.route->0.mcp_id@
    }

    /// The request brought a configuration from which a service can be started.
    pub open spec fn brings_config(self) -> bool {
        self.header_config is Some && self.header_config->0.has_json
    }

    /// The service that this configuration is for.
    pub open spec fn config_id(self) -> Seq<char> {
        self.header_config->0.mcp_id@
    }
}

/// An answer that the proxy gives by itself.
#[derive(Clone, Debug)]
pub enum Reply {
    PathNotRecognized { path: String },
    NothingToStart { path: String },
    InCooldown { mcp_id: String },
    Initializing { mcp_id: String },
    Starting { mcp_id: String },
    UnhealthyWithoutConfig { mcp_id: String },
    StartFailed { mcp_id: String, reason: String },
    OneShotEnded { mcp_id: String },
    OneShotNeedsRequest { mcp_id: String },
    /// A bare internal error.
    InternalError,
}

/// The contents of a [`Reply`].
pub enum ReplyView {
    PathNotRecognized { path: Seq<char> },
    NothingToStart { path: Seq<char> },
    InCooldown { mcp_id: Seq<char> },
    Initializing { mcp_id: Seq<char> },
    Starting { mcp_id: Seq<char> },
    UnhealthyWithoutConfig { mcp_id: Seq<char> },
    StartFailed { mcp_id: Seq<char>, reason: Seq<char> },
    OneShotEnded { mcp_id: Seq<char> },
    OneShotNeedsRequest { mcp_id: Seq<char> },
    InternalError,
}

impl View for Reply {
    type V = ReplyView;

    open spec fn view(&self) -> ReplyView {
        match self {
            Reply::PathNotRecognized { path } => ReplyView::PathNotRecognized { path: path@ },
            Reply::NothingToStart { path } => ReplyView::NothingToStart { path: path@ },
            Reply::InCooldown { mcp_id } => ReplyView::InCooldown { mcp_id: mcp_id@ },
            Reply::Initializing { mcp_id } => ReplyView::Initializing { mcp_id: mcp_id@ },
            Reply::Starting { mcp_id } => ReplyView::Starting { mcp_id: mcp_id@ },
            Reply::UnhealthyWithoutConfig { mcp_id } => ReplyView::UnhealthyWithoutConfig {
                mcp_id: mcp_id@,
            },
            Reply::StartFailed { mcp_id, reason } => ReplyView::StartFailed {
                mcp_id: mcp_id@,
                reason: reason@,
            },
            Reply::OneShotEnded { mcp_id } => ReplyView::OneShotEnded { mcp_id: mcp_id@ },
            Reply::OneShotNeedsRequest { mcp_id } => ReplyView::OneShotNeedsRequest {
                mcp_id: mcp_id@,
            },
            Reply::InternalError => ReplyView::InternalError,
        }
    }
}

impl ReplyView {
    /// The code that a client sees. A bare internal error has none.
    pub open spec fn code(self) -> Option<Seq<char>> {
        match self {
            ReplyView::PathNotRecognized { .. } => Some("0001"@),
            ReplyView::NothingToStart { .. } => Some("0001"@),
            ReplyView::InCooldown { .. } => Some("0002"@),
            ReplyView::Initializing { .. } => Some("0003"@),
            ReplyView::Starting { .. } => Some("0003"@),
            ReplyView::UnhealthyWithoutConfig { .. } => Some("0004"@),
            ReplyView::StartFailed { .. } => Some("0005"@),
            ReplyView::OneShotEnded { .. } => Some("0006"@),
            ReplyView::OneShotNeedsRequest { .. } => Some("0007"@),
            ReplyView::InternalError => None,
        }
    }

    /// The message that a client sees.
    pub open spec fn message(self) -> Seq<char> {
        match self {
            ReplyView::PathNotRecognized { path } => "请求路径解析失败: "@ + path,
            ReplyView::NothingToStart { path } =>
                "未找到匹配的路径,且未获取到配置,无法启动MCP服务: "@ + path,
            ReplyView::InCooldown { mcp_id } => "服务 "@ + mcp_id
                + " 在重启冷却期内，请稍后再试"@,
            ReplyView::Initializing { mcp_id } => "服务 "@ + mcp_id
                + " 正在初始化中，请稍后再试"@,
            ReplyView::Starting { mcp_id } => "服务 "@ + mcp_id + " 正在启动中，请稍后再试"@,
            ReplyView::UnhealthyWithoutConfig { mcp_id } => "服务 "@ + mcp_id
                + " 不健康且无法获取配置"@,
            ReplyView::StartFailed { mcp_id, reason } => "服务 "@ + mcp_id + " 启动失败: "@
                + reason,
            ReplyView::OneShotEnded { mcp_id } => "OneShot 服务 "@ + mcp_id
                + " 已结束，请重新启动"@,
            ReplyView::OneShotNeedsRequest { mcp_id } => "OneShot 服务 "@ + mcp_id
                + " 需要通过 check_status 接口启动"@,
            ReplyView::InternalError => Seq::empty(),
        }
    }

    /// The HTTP status that is recorded for the request, where one is.
    pub open spec fn recorded_status(self) -> Option<u16> {
        match self {
            ReplyView::PathNotRecognized { .. } => Some(400),
            ReplyView::NothingToStart { .. } => Some(404),
            ReplyView::InCooldown { .. } => Some(429),
            ReplyView::Initializing { .. } => Some(503),
            ReplyView::Starting { .. } => Some(503),
            ReplyView::UnhealthyWithoutConfig { .. } => None,
            ReplyView::StartFailed { .. } => Some(503),
            ReplyView::OneShotEnded { .. } => None,
            ReplyView::OneShotNeedsRequest { .. } => None,
            ReplyView::InternalError => None,
        }
    }
}

impl Reply {
    /// The code that a client sees. A bare internal error has none.
    pub fn code(&self) -> (r: Option<&'static str>)
        ensures
            match r {
                Some(code) => self@.code() == Some(code@),
                None => self@.code() is None,
            },
    {
        match self {
            Reply::PathNotRecognized { .. } => Some("0001"),
            Reply::NothingToStart { .. } => Some("0001"),
            Reply::InCooldown { .. } => Some("0002"),
            Reply::Initializing { .. } => Some("0003"),
            Reply::Starting { .. } => Some("0003"),
            Reply::UnhealthyWithoutConfig { .. } => Some("0004"),
            Reply::StartFailed { .. } => Some("0005"),
            Reply::OneShotEnded { .. } => Some("0006"),
            Reply::OneShotNeedsRequest { .. } => Some("0007"),
            Reply::InternalError => None,
        }
    }

    /// The message that a client sees.
    pub fn message(&self) -> (r: String)
        ensures
            r@ == self@.message(),
    {
        match self {
            Reply::PathNotRecognized { path } => concat2("请求路径解析失败: ", path.as_str()),
            Reply::NothingToStart { path } =>
                concat2("未找到匹配的路径,且未获取到配置,无法启动MCP服务: ", path.as_str()),
            Reply::InCooldown { mcp_id } =>
                concat3("服务 ", mcp_id.as_str(), " 在重启冷却期内，请稍后再试"),
            Reply::Initializing { mcp_id } =>
                concat3("服务 ", mcp_id.as_str(), " 正在初始化中，请稍后再试"),
            Reply::Starting { mcp_id } =>
                concat3("服务 ", mcp_id.as_str(), " 正在启动中，请稍后再试"),
            Reply::UnhealthyWithoutConfig { mcp_id } =>
                concat3("服务 ", mcp_id.as_str(), " 不健康且无法获取配置"),
            Reply::StartFailed { mcp_id, reason } => {
                let mut r: String = concat3("服务 ", mcp_id.as_str(), " 启动失败: ");
                r.append(reason.as_str());
                r
            },
            Reply::OneShotEnded { mcp_id } =>
                concat3("OneShot 服务 ", mcp_id.as_str(), " 已结束，请重新启动"),
            Reply::OneShotNeedsRequest { mcp_id } =>
                concat3("OneShot 服务 ", mcp_id.as_str(), " 需要通过 check_status 接口启动"),
            Reply::InternalError => String::new(),
        }
    }

    /// The HTTP status that is recorded for the request, where one is.
    pub fn recorded_status(&self) -> (r: Option<u16>)
        ensures
            r == self@.recorded_status(),
    {
        match self {
            Reply::PathNotRecognized { .. } => Some(400),
            Reply::NothingToStart { .. } => Some(404),
            Reply::InCooldown { .. } => Some(429),
            Reply::Initializing { .. } => Some(503),
            Reply::Starting { .. } => Some(503),
            Reply::UnhealthyWithoutConfig { .. } => None,
            Reply::StartFailed { .. } => Some(503),
            Reply::OneShotEnded { .. } => None,
            Reply::OneShotNeedsRequest { .. } => None,
            Reply::InternalError => None,
        }
    }
}

/// Where a service's configuration is taken from.
#[derive(Clone, Copy, Debug, PartialEq, Eq, Structural)]
pub enum ConfigSource {
    /// It came with the request.
    Header,
    /// It was registered by an earlier request.
    Cache,
}

/// Where a request is forwarded to.
#[derive(Clone, Copy, Debug, PartialEq, Eq, Structural)]
pub enum Target {
    /// The route that was found for it.
    Found,
    /// The service that was just started for it.
    Started,
}

/// What is to be done next. Each action but [`Action::Answer`] and
/// [`Action::Deliver`] brings one [`Event`].
#[derive(Clone, Debug)]
pub enum Action {
    FindRoute { base_path: String },
    ReadStatus { mcp_id: String },
    Sleep { ms: u64 },
    TryLock { mcp_id: String },
    FindHandler { mcp_id: String },
    ReadCachedHealth { mcp_id: String },
    ProbeHealth { mcp_id: String },
    RecordHealth { mcp_id: String, healthy: bool },
    ReleaseLock { mcp_id: String },
    ReadType { mcp_id: String },
    CleanUp { mcp_id: String },
    AskRestart { mcp_id: String },
    ReadCachedConfig { mcp_id: String },
    RegisterHeaderConfig { mcp_id: String },
    Start { source: ConfigSource },
    Forward { target: Target },
    /// Answer the request; nothing is left to do.
    Answer { reply: Reply },
    /// Hand on what the service answered; nothing is left to do.
    Deliver,
}

/// The contents of an [`Action`].
pub enum ActionView {
    FindRoute { base_path: Seq<char> },
    ReadStatus { mcp_id: Seq<char> },
    Sleep { ms: u64 },
    TryLock { mcp_id: Seq<char> },
    FindHandler { mcp_id: Seq<char> },
    ReadCachedHealth { mcp_id: Seq<char> },
    ProbeHealth { mcp_id: Seq<char> },
    RecordHealth { mcp_id: Seq<char>, healthy: bool },
    ReleaseLock { mcp_id: Seq<char> },
    ReadType { mcp_id: Seq<char> },
    CleanUp { mcp_id: Seq<char> },
    AskRestart { mcp_id: Seq<char> },
    ReadCachedConfig { mcp_id: Seq<char> },
    RegisterHeaderConfig { mcp_id: Seq<char> },
    Start { source: ConfigSource },
    Forward { target: Target },
    Answer { reply: ReplyView },
    Deliver,
}

impl View for Action {
    type V = ActionView;

    open spec fn view(&self) -> ActionView {
        match self {
            Action::FindRoute { base_path } => ActionView::FindRoute { base_path: base_path@ },
            Action::ReadStatus { mcp_id } => ActionView::ReadStatus { mcp_id: mcp_id@ },
            Action::Sleep { ms } => ActionView::Sleep { ms: *ms },
            Action::TryLock { mcp_id } => ActionView::TryLock { mcp_id: mcp_id@ },
            Action::FindHandler { mcp_id } => ActionView::FindHandler { mcp_id: mcp_id@ },
            Action::ReadCachedHealth { mcp_id } => ActionView::ReadCachedHealth {
                mcp_id: mcp_id@,
            },
            Action::ProbeHealth { mcp_id } => ActionView::ProbeHealth { mcp_id: mcp_id@ },
            Action::RecordHealth { mcp_id, healthy } => ActionView::RecordHealth {
                mcp_id: mcp_id@,
                healthy: *healthy,
            },
            Action::ReleaseLock { mcp_id } => ActionView::ReleaseLock { mcp_id: mcp_id@ },
            Action::ReadType { mcp_id } => ActionView::ReadType { mcp_id: mcp_id@ },
            Action::CleanUp { mcp_id } => ActionView::CleanUp { mcp_id: mcp_id@ },
            Action::AskRestart { mcp_id } => ActionView::AskRestart { mcp_id: mcp_id@ },
            Action::ReadCachedConfig { mcp_id } => ActionView::ReadCachedConfig {
                mcp_id: mcp_id@,
            },
            Action::RegisterHeaderConfig { mcp_id } => ActionView::RegisterHeaderConfig {
                mcp_id: mcp_id@,
            },
            Action::Start { source } => ActionView::Start { source: *source },
            Action::Forward { target } => ActionView::Forward { target: *target },
            Action::Answer { reply } => ActionView::Answer { reply: reply@ },
            Action::Deliver => ActionView::Deliver,
        }
    }
}

/// What came of an action.
#[derive(Clone, Debug)]
pub enum Event {
    /// Whether a route is registered (`FindRoute`).
    Route(bool),
    /// What the registry says, and how long the request has waited
    /// (`ReadStatus`).
    Status { status: Option<ServiceStatus>, waited_ms: u64 },
    /// The time is over (`Sleep`).
    Awake,
    /// Whether the start lock was taken, and how long the request has waited
    /// (`TryLock`).
    Lock { taken: bool, waited_ms: u64 },
    /// Whether a handler is registered (`FindHandler`).
    Handler(bool),
    /// The health that was recorded lately, where one was
    /// (`ReadCachedHealth`).
    CachedHealth(Option<bool>),
    /// The health that was found (`ProbeHealth`).
    Health(bool),
    /// The kind of the service, where it is known (`ReadType`).
    Kind(Option<McpType>),
    /// Whether the service may be restarted yet (`AskRestart`).
    MayRestart(bool),
    /// The kind of the service that the registered configuration is for, where
    /// there is one (`ReadCachedConfig`).
    CachedConfig(Option<McpType>),
    /// It is done (`RecordHealth`, `ReleaseLock`, `CleanUp`,
    /// `RegisterHeaderConfig`).
    Done,
    /// Whether the service started (`Start`).
    Started(bool),
    /// Whether the service answered (`Forward`).
    Answered(bool),
}

/// What the machine waits for.
#[derive(Clone, Debug)]
pub enum Phase {
    FindingRoute,
    ReadingStatus,
    Sleeping,
    /// The service failed to start, for this reason, and is being cleaned up.
    CleaningFailed(String),
    Locking,
    FindingHandler,
    ReadingHealth,
    Probing,
    RecordingHealth(bool),
    /// The service is healthy; its lock is being given back.
    ReleasingHealthy,
    /// The service is unhealthy.
    ReadingUnhealthyKind,
    /// The unhealthy service is being cleaned up. Whether it is a one-shot.
    CleaningUnhealthy(bool),
    RegisteringForRestart,
    ReadingConfigForRestart,
    /// There is a route but no handler.
    ReadingOrphanKind,
    CleaningOrphan,
    ReleasingOrphan,
    /// Asking whether this service, whose configuration came with the request,
    /// may be restarted.
    AskingForHeader(String),
    LockingForHeader(String),
    RegisteringForStart,
    ReadingConfigForStart,
    AskingForCache,
    LockingForCache,
    Starting,
    Forwarding,
    Finished,
}

/// A state of the machine.
#[derive(Clone, Debug)]
pub struct RouterState {
    pub phase: Phase,
    /// The start lock is held for this request.
    pub locked: bool,
}

/// What the machine waits for, with its contents.
pub enum PhaseView {
    FindingRoute,
    ReadingStatus,
    Sleeping,
    CleaningFailed(Seq<char>),
    Locking,
    FindingHandler,
    ReadingHealth,
    Probing,
    RecordingHealth(bool),
    ReleasingHealthy,
    ReadingUnhealthyKind,
    CleaningUnhealthy(bool),
    RegisteringForRestart,
    ReadingConfigForRestart,
    ReadingOrphanKind,
    CleaningOrphan,
    ReleasingOrphan,
    AskingForHeader(Seq<char>),
    LockingForHeader(Seq<char>),
    RegisteringForStart,
    ReadingConfigForStart,
    AskingForCache,
    LockingForCache,
    Starting,
    Forwarding,
    Finished,
}

impl View for Phase {
    type V = PhaseView;

    open spec fn view(&self) -> PhaseView {
        match self {
            Phase::FindingRoute => PhaseView::FindingRoute,
            Phase::ReadingStatus => PhaseView::ReadingStatus,
            Phase::Sleeping => PhaseView::Sleeping,
            Phase::CleaningFailed(reason) => PhaseView::CleaningFailed(reason@),
            Phase::Locking => PhaseView::Locking,
            Phase::FindingHandler => PhaseView::FindingHandler,
            Phase::ReadingHealth => PhaseView::ReadingHealth,
            Phase::Probing => PhaseView::Probing,
            Phase::RecordingHealth(healthy) => PhaseView::RecordingHealth(*healthy),
            Phase::ReleasingHealthy => PhaseView::ReleasingHealthy,
            Phase::ReadingUnhealthyKind => PhaseView::ReadingUnhealthyKind,
            Phase::CleaningUnhealthy(one_shot) => PhaseView::CleaningUnhealthy(*one_shot),
            Phase::RegisteringForRestart => PhaseView::RegisteringForRestart,
            Phase::ReadingConfigForRestart => PhaseView::ReadingConfigForRestart,
            Phase::ReadingOrphanKind => PhaseView::ReadingOrphanKind,
            Phase::CleaningOrphan => PhaseView::CleaningOrphan,
            Phase::ReleasingOrphan => PhaseView::ReleasingOrphan,
            Phase::AskingForHeader(mcp_id) => PhaseView::AskingForHeader(mcp_id@),
            Phase::LockingForHeader(mcp_id) => PhaseView::LockingForHeader(mcp_id@),
            Phase::RegisteringForStart => PhaseView::RegisteringForStart,
            Phase::ReadingConfigForStart => PhaseView::ReadingConfigForStart,
            Phase::AskingForCache => PhaseView::AskingForCache,
            Phase::LockingForCache => PhaseView::LockingForCache,
            Phase::Starting => PhaseView::Starting,
            Phase::Forwarding => PhaseView::Forwarding,
            Phase::Finished => PhaseView::Finished,
        }
    }
}

/// The contents of a [`RouterState`].
pub struct StateView {
    pub phase: PhaseView,
    pub locked: bool,
}

impl View for RouterState {
    type V = StateView;

    open spec fn view(&self) -> StateView {
        StateView { phase: self.phase@, locked: self.locked }
    }
}

/// A state and what is to be done in it.
pub struct Move {
    pub state: StateView,
    pub action: ActionView,
}

/// The move to `phase`, with `locked` and `action`.
pub open spec fn to(phase: PhaseView, locked: bool, action: ActionView) -> Move {
    Move { state: StateView { phase, locked }, action }
}

/// The last move: the proxy answers by itself, and the lock, where it was
/// held, is given back.
pub open spec fn answer(reply: ReplyView) -> Move {
    to(PhaseView::Finished, false, ActionView::Answer { reply })
}

/// `event` is what the action taken in `phase` brings.
pub open spec fn fits(phase: PhaseView, event: Event) -> bool {
    match phase {
        PhaseView::FindingRoute => event is Route,
        PhaseView::ReadingStatus => event is Status,
        PhaseView::Sleeping => event is Awake,
        PhaseView::Locking => event is Lock,
        PhaseView::FindingHandler => event is Handler,
        PhaseView::ReadingHealth => event is CachedHealth,
        PhaseView::Probing => event is Health,
        PhaseView::ReadingUnhealthyKind => event is Kind,
        PhaseView::ReadingConfigForRestart => event is CachedConfig,
        PhaseView::ReadingOrphanKind => event is Kind,
        PhaseView::AskingForHeader(_) => event is MayRestart,
        PhaseView::LockingForHeader(_) => event is Lock,
        PhaseView::ReadingConfigForStart => event is CachedConfig,
        PhaseView::AskingForCache => event is MayRestart,
        PhaseView::LockingForCache => event is Lock,
        PhaseView::Starting => event is Started,
        PhaseView::Forwarding => event is Answered,
        PhaseView::Finished => false,
        _ => event is Done,
    }
}

/// The first move for a request.
pub open spec fn first_move(req: RouterRequest) -> Move {
    if req.route is Some {
        to(
            PhaseView::FindingRoute,
            false,
            ActionView::FindRoute { base_path: req.route->0.base_path@ },
        )
    } else {
        answer(ReplyView::PathNotRecognized { path: req.path@ })
    }
}

/// The move that begins the start of a service which has no usable route.
pub open spec fn start_move(req: RouterRequest) -> Move {
    if req.brings_config() {
        to(
            PhaseView::AskingForHeader(req.config_id()),
            false,
            ActionView::AskRestart { mcp_id: req.config_id() },
        )
    } else {
        to(
            PhaseView::ReadingConfigForStart,
            false,
            ActionView::ReadCachedConfig { mcp_id: req.id() },
        )
    }
}

/// The move after the health of a service has become known.
pub open spec fn health_move(req: RouterRequest, healthy: bool) -> Move {
    if healthy {
        to(
            PhaseView::ReleasingHealthy,
            true,
            ActionView::ReleaseLock { mcp_id: req.id() },
        )
    } else {
        to(
            PhaseView::ReadingUnhealthyKind,
            true,
            ActionView::ReadType { mcp_id: req.id() },
        )
    }
}

/// The move that follows on `event` in `phase`.
pub open spec fn next_move(req: RouterRequest, phase: PhaseView, event: Event) -> Move {
    let id = req.id();
    let start = |source: ConfigSource|
        to(PhaseView::Starting, true, ActionView::Start { source });
    let sleep = to(PhaseView::Sleeping, false, ActionView::Sleep { ms: POLL_INTERVAL_MS });
    match phase {
        // Look at the service that the path names.
        PhaseView::FindingRoute => if event->Route_0 {
            to(PhaseView::ReadingStatus, false, ActionView::ReadStatus { mcp_id: id })
        } else {
            start_move(req)
        },
        PhaseView::ReadingStatus => match event->status {
            Some(ServiceStatus::Pending) => if event->Status_waited_ms >= WAIT_LIMIT_MS {
                answer(ReplyView::Initializing { mcp_id: id })
            } else {
                sleep
            },
            Some(ServiceStatus::Error(reason)) => to(
                PhaseView::CleaningFailed(reason@),
                false,
                ActionView::CleanUp { mcp_id: id },
            ),
            _ => to(PhaseView::Locking, false, ActionView::TryLock { mcp_id: id }),
        },
        PhaseView::Sleeping => to(
            PhaseView::ReadingStatus,
            false,
            ActionView::ReadStatus { mcp_id: id },
        ),
        PhaseView::CleaningFailed(reason) => answer(
            ReplyView::StartFailed { mcp_id: id, reason },
        ),
        PhaseView::Locking => if event->taken {
            to(PhaseView::FindingHandler, true, ActionView::FindHandler { mcp_id: id })
        } else if event->Lock_waited_ms >= WAIT_LIMIT_MS {
            answer(ReplyView::Starting { mcp_id: id })
        } else {
            sleep
        },
        PhaseView::FindingHandler => if event->Handler_0 {
            to(PhaseView::ReadingHealth, true, ActionView::ReadCachedHealth { mcp_id: id })
        } else {
            to(PhaseView::ReadingOrphanKind, true, ActionView::ReadType { mcp_id: id })
        },
        // Its health decides.
        PhaseView::ReadingHealth => match event->CachedHealth_0 {
            Some(healthy) => health_move(req, healthy),
            None => to(PhaseView::Probing, true, ActionView::ProbeHealth { mcp_id: id }),
        },
        PhaseView::Probing => to(
            PhaseView::RecordingHealth(event->Health_0),
            true,
            ActionView::RecordHealth { mcp_id: id, healthy: event->Health_0 },
        ),
        PhaseView::RecordingHealth(healthy) => health_move(req, healthy),
        PhaseView::ReleasingHealthy => to(
            PhaseView::Forwarding,
            false,
            ActionView::Forward { target: Target::Found },
        ),
        // It is unhealthy: clean up, and restart it unless it is a one-shot.
        PhaseView::ReadingUnhealthyKind => to(
            PhaseView::CleaningUnhealthy(event->Kind_0 == Some(McpType::OneShot)),
            true,
            ActionView::CleanUp { mcp_id: id },
        ),
        PhaseView::CleaningUnhealthy(one_shot) => if one_shot {
            answer(ReplyView::OneShotEnded { mcp_id: id })
        } else if req.brings_config() {
            to(
                PhaseView::RegisteringForRestart,
                true,
                ActionView::RegisterHeaderConfig { mcp_id: req.config_id() },
            )
        } else {
            to(
                PhaseView::ReadingConfigForRestart,
                true,
                ActionView::ReadCachedConfig { mcp_id: id },
            )
        },
        PhaseView::RegisteringForRestart => start(ConfigSource::Header),
        PhaseView::ReadingConfigForRestart => if event->CachedConfig_0 is Some {
            start(ConfigSource::Cache)
        } else {
            answer(ReplyView::UnhealthyWithoutConfig { mcp_id: id })
        },
        // It has a route but no handler.
        PhaseView::ReadingOrphanKind => if event->Kind_0 == Some(McpType::OneShot) {
            to(PhaseView::CleaningOrphan, true, ActionView::CleanUp { mcp_id: id })
        } else {
            to(PhaseView::ReleasingOrphan, true, ActionView::ReleaseLock { mcp_id: id })
        },
        PhaseView::CleaningOrphan => answer(ReplyView::OneShotEnded { mcp_id: id }),
        PhaseView::ReleasingOrphan => start_move(req),
        // Start it from the configuration that came with the request.
        PhaseView::AskingForHeader(mcp_id) => if event->MayRestart_0 {
            to(PhaseView::LockingForHeader(mcp_id), false, ActionView::TryLock { mcp_id })
        } else {
            answer(ReplyView::InCooldown { mcp_id })
        },
        PhaseView::LockingForHeader(mcp_id) => if event->taken {
            to(
                PhaseView::RegisteringForStart,
                true,
                ActionView::RegisterHeaderConfig { mcp_id },
            )
        } else {
            answer(ReplyView::Starting { mcp_id })
        },
        PhaseView::RegisteringForStart => start(ConfigSource::Header),
        // Start it from the configuration that was registered last.
        PhaseView::ReadingConfigForStart => match event->CachedConfig_0 {
            None => answer(ReplyView::NothingToStart { path: req.path@ }),
            Some(McpType::OneShot) => answer(ReplyView::OneShotNeedsRequest { mcp_id: id }),
            Some(McpType::Persistent) => to(
                PhaseView::AskingForCache,
                false,
                ActionView::AskRestart { mcp_id: id },
            ),
        },
        PhaseView::AskingForCache => if event->MayRestart_0 {
            to(PhaseView::LockingForCache, false, ActionView::TryLock { mcp_id: id })
        } else {
            answer(ReplyView::InCooldown { mcp_id: id })
        },
        PhaseView::LockingForCache => if event->taken {
            start(ConfigSource::Cache)
        } else {
            answer(ReplyView::Starting { mcp_id: id })
        },
        // Hand the request to the service.
        PhaseView::Starting => if event->Started_0 {
            to(PhaseView::Forwarding, true, ActionView::Forward { target: Target::Started })
        } else {
            answer(ReplyView::InternalError)
        },
        PhaseView::Forwarding => if event->Answered_0 {
            to(PhaseView::Finished, false, ActionView::Deliver)
        } else {
            answer(ReplyView::InternalError)
        },
        PhaseView::Finished => to(PhaseView::Finished, false, ActionView::Deliver),
    }
}

fn moved(phase: Phase, locked: bool, action: Action) -> (r: (RouterState, Action))
    ensures
        (Move { state: r.0@, action: r.1@ }) == to(phase@, locked, action@),
{
    (RouterState { phase, locked }, action)
}

fn answered(reply: Reply) -> (r: (RouterState, Action))
    ensures
        (Move { state: r.0@, action: r.1@ }) == answer(reply@),
{
    moved(Phase::Finished, false, Action::Answer { reply })
}

impl RouterRequest {
    /// The identifier of the service that the configuration which came with
    /// the request is for, where a service can be started from it.
    fn usable_config(&self) -> (r: Option<String>)
        ensures
            r is Some == self.brings_config(),
            r is Some ==> r->0@ == self.config_id(),
    {
        match &self.header_config {
            Some(config) => if config.has_json {
                Some(config.mcp_id.clone())
            } else {
                None
            },
            None => None,
        }
    }
}

/// The first move for a request.
pub fn begin(req: &RouterRequest) -> (r: (RouterState, Action))
    ensures
        (Move { state: r.0@, action: r.1@ }) == first_move(*req),
{
    match &req.route {
        Some(route) => moved(
            Phase::FindingRoute,
            false,
            Action::FindRoute { base_path: route.base_path.clone() },
        ),
        None => answered(Reply::PathNotRecognized { path: req.path.clone() }),
    }
}

fn begin_start(req: &RouterRequest, id: String) -> (r: (RouterState, Action))
    requires
        id@ == req.id(),
    ensures
        (Move { state: r.0@, action: r.1@ }) == start_move(*req),
{
    match req.usable_config() {
        Some(mcp_id) => moved(
            Phase::AskingForHeader(mcp_id.clone()),
            false,
            Action::AskRestart { mcp_id },
        ),
        None => moved(
            Phase::ReadingConfigForStart,
            false,
            Action::ReadCachedConfig { mcp_id: id },
        ),
    }
}

fn weigh_health(req: &RouterRequest, id: String, healthy: bool) -> (r: (RouterState, Action))
    requires
        id@ == req.id(),
    ensures
        (Move { state: r.0@, action: r.1@ }) == health_move(*req, healthy),
{
    if healthy {
        moved(Phase::ReleasingHealthy, true, Action::ReleaseLock { mcp_id: id })
    } else {
        moved(Phase::ReadingUnhealthyKind, true, Action::ReadType { mcp_id: id })
    }
}

fn is_one_shot(kind: Option<McpType>) -> (r: bool)
    ensures
        r == (kind == Some(McpType::OneShot)),
{
    match kind {
        Some(McpType::OneShot) => true,
        _ => false,
    }
}

/// Whether `event` is what the action taken in this phase brings.
pub fn expects(phase: &Phase, event: &Event) -> (r: bool)
    ensures
        r == fits(phase@, *event),
{
    match (phase, event) {
        (Phase::FindingRoute, Event::Route(_)) => true,
        (Phase::ReadingStatus, Event::Status { .. }) => true,
        (Phase::Sleeping, Event::Awake) => true,
        (Phase::CleaningFailed(_), Event::Done) => true,
        (Phase::Locking, Event::Lock { .. }) => true,
        (Phase::FindingHandler, Event::Handler(_)) => true,
        (Phase::ReadingHealth, Event::CachedHealth(_)) => true,
        (Phase::Probing, Event::Health(_)) => true,
        (Phase::RecordingHealth(_), Event::Done) => true,
        (Phase::ReleasingHealthy, Event::Done) => true,
        (Phase::ReadingUnhealthyKind, Event::Kind(_)) => true,
        (Phase::CleaningUnhealthy(_), Event::Done) => true,
        (Phase::RegisteringForRestart, Event::Done) => true,
        (Phase::ReadingConfigForRestart, Event::CachedConfig(_)) => true,
        (Phase::ReadingOrphanKind, Event::Kind(_)) => true,
        (Phase::CleaningOrphan, Event::Done) => true,
        (Phase::ReleasingOrphan, Event::Done) => true,
        (Phase::AskingForHeader(_), Event::MayRestart(_)) => true,
        (Phase::LockingForHeader(_), Event::Lock { .. }) => true,
        (Phase::RegisteringForStart, Event::Done) => true,
        (Phase::ReadingConfigForStart, Event::CachedConfig(_)) => true,
        (Phase::AskingForCache, Event::MayRestart(_)) => true,
        (Phase::LockingForCache, Event::Lock { .. }) => true,
        (Phase::Starting, Event::Started(_)) => true,
        (Phase::Forwarding, Event::Answered(_)) => true,
        _ => false,
    }
}

/// The move that follows on `event`.
pub fn step(req: &RouterRequest, state: &RouterState, event: &Event) -> (r: (
    RouterState,
    Action,
))
    requires
        req.route is Some,
        fits(state@.phase, *event),
    ensures
        (Move { state: r.0@, action: r.1@ }) == next_move(*req, state@.phase, *event),
{
    let id: String = match &req.route {
        Some(route) => route.mcp_id.clone(),
        None => String::new(),
    };
    match (&state.phase, event) {
        (Phase::FindingRoute, Event::Route(found)) => if *found {
            moved(Phase::ReadingStatus, false, Action::ReadStatus { mcp_id: id })
        } else {
            begin_start(req, id)
        },
        (Phase::ReadingStatus, Event::Status { status, waited_ms }) => match status {
            Some(ServiceStatus::Pending) => if *waited_ms >= WAIT_LIMIT_MS {
                answered(Reply::Initializing { mcp_id: id })
            } else {
                moved(Phase::Sleeping, false, Action::Sleep { ms: POLL_INTERVAL_MS })
            },
            Some(ServiceStatus::Error(reason)) => moved(
                Phase::CleaningFailed(reason.clone()),
                false,
                Action::CleanUp { mcp_id: id },
            ),
            _ => moved(Phase::Locking, false, Action::TryLock { mcp_id: id }),
        },
        (Phase::Sleeping, _) => moved(
            Phase::ReadingStatus,
            false,
            Action::ReadStatus { mcp_id: id },
        ),
        (Phase::CleaningFailed(reason), _) => answered(
            Reply::StartFailed { mcp_id: id, reason: reason.clone() },
        ),
        (Phase::Locking, Event::Lock { taken, waited_ms }) => if *taken {
            moved(Phase::FindingHandler, true, Action::FindHandler { mcp_id: id })
        } else if *waited_ms >= WAIT_LIMIT_MS {
            answered(Reply::Starting { mcp_id: id })
        } else {
            moved(Phase::Sleeping, false, Action::Sleep { ms: POLL_INTERVAL_MS })
        },
        (Phase::FindingHandler, Event::Handler(found)) => if *found {
            moved(Phase::ReadingHealth, true, Action::ReadCachedHealth { mcp_id: id })
        } else {
            moved(Phase::ReadingOrphanKind, true, Action::ReadType { mcp_id: id })
        },
        (Phase::ReadingHealth, Event::CachedHealth(cached)) => match cached {
            Some(healthy) => weigh_health(req, id, *healthy),
            None => moved(Phase::Probing, true, Action::ProbeHealth { mcp_id: id }),
        },
        (Phase::Probing, Event::Health(healthy)) => moved(
            Phase::RecordingHealth(*healthy),
            true,
            Action::RecordHealth { mcp_id: id, healthy: *healthy },
        ),
        (Phase::RecordingHealth(healthy), _) => weigh_health(req, id, *healthy),
        (Phase::ReleasingHealthy, _) => moved(
            Phase::Forwarding,
            false,
            Action::Forward { target: Target::Found },
        ),
        (Phase::ReadingUnhealthyKind, Event::Kind(kind)) => moved(
            Phase::CleaningUnhealthy(is_one_shot(*kind)),
            true,
            Action::CleanUp { mcp_id: id },
        ),
        (Phase::CleaningUnhealthy(one_shot), _) => if *one_shot {
            answered(Reply::OneShotEnded { mcp_id: id })
        } else {
            match req.usable_config() {
                Some(mcp_id) => moved(
                    Phase::RegisteringForRestart,
                    true,
                    Action::RegisterHeaderConfig { mcp_id },
                ),
                None => moved(
                    Phase::ReadingConfigForRestart,
                    true,
                    Action::ReadCachedConfig { mcp_id: id },
                ),
            }
        },
        (Phase::RegisteringForRestart, _) => moved(
            Phase::Starting,
            true,
            Action::Start { source: ConfigSource::Header },
        ),
        (Phase::ReadingConfigForRestart, Event::CachedConfig(config)) => if config.is_some() {
            moved(Phase::Starting, true, Action::Start { source: ConfigSource::Cache })
        } else {
            answered(Reply::UnhealthyWithoutConfig { mcp_id: id })
        },
        (Phase::ReadingOrphanKind, Event::Kind(kind)) => if is_one_shot(*kind) {
            moved(Phase::CleaningOrphan, true, Action::CleanUp { mcp_id: id })
        } else {
            moved(Phase::ReleasingOrphan, true, Action::ReleaseLock { mcp_id: id })
        },
        (Phase::CleaningOrphan, _) => answered(Reply::OneShotEnded { mcp_id: id }),
        (Phase::ReleasingOrphan, _) => begin_start(req, id),
        (Phase::AskingForHeader(mcp_id), Event::MayRestart(may)) => if *may {
            moved(
                Phase::LockingForHeader(mcp_id.clone()),
                false,
                Action::TryLock { mcp_id: mcp_id.clone() },
            )
        } else {
            answered(Reply::InCooldown { mcp_id: mcp_id.clone() })
        },
        (Phase::LockingForHeader(mcp_id), Event::Lock { taken, .. }) => if *taken {
            moved(
                Phase::RegisteringForStart,
                true,
                Action::RegisterHeaderConfig { mcp_id: mcp_id.clone() },
            )
        } else {
            answered(Reply::Starting { mcp_id: mcp_id.clone() })
        },
        (Phase::RegisteringForStart, _) => moved(
            Phase::Starting,
            true,
            Action::Start { source: ConfigSource::Header },
        ),
        (Phase::ReadingConfigForStart, Event::CachedConfig(config)) => match config {
            None => answered(Reply::NothingToStart { path: req.path.clone() }),
            Some(McpType::OneShot) => answered(Reply::OneShotNeedsRequest { mcp_id: id }),
            Some(McpType::Persistent) => moved(
                Phase::AskingForCache,
                false,
                Action::AskRestart { mcp_id: id },
            ),
        },
        (Phase::AskingForCache, Event::MayRestart(may)) => if *may {
            moved(Phase::LockingForCache, false, Action::TryLock { mcp_id: id })
        } else {
            answered(Reply::InCooldown { mcp_id: id })
        },
        (Phase::LockingForCache, Event::Lock { taken, .. }) => if *taken {
            moved(Phase::Starting, true, Action::Start { source: ConfigSource::Cache })
        } else {
            answered(Reply::Starting { mcp_id: id })
        },
        (Phase::Starting, Event::Started(started)) => if *started {
            moved(Phase::Forwarding, true, Action::Forward { target: Target::Started })
        } else {
            answered(Reply::InternalError)
        },
        (Phase::Forwarding, Event::Answered(answered_by_service)) => if *answered_by_service {
            moved(Phase::Finished, false, Action::Deliver)
        } else {
            answered(Reply::InternalError)
        },
        _ => moved(Phase::Finished, false, Action::Deliver),
    }
}

/// The message of each answer names the whole service, or the whole path, and
/// gives the whole reason.
pub proof fn messages_name_the_whole_service(reply: &Reply, r: String)
    requires
        call_ensures(Reply::message, (reply,), r),
    ensures
        match reply {
            Reply::PathNotRecognized { path } => frames(
                r@,
                "请求路径解析失败: "@,
                path@,
                Seq::empty(),
            ),
            Reply::NothingToStart { path } => frames(
                r@,
                "未找到匹配的路径,且未获取到配置,无法启动MCP服务: "@,
                path@,
                Seq::empty(),
            ),
            Reply::InCooldown { mcp_id } => frames(
                r@,
                "服务 "@,
                mcp_id@,
                " 在重启冷却期内，请稍后再试"@,
            ),
            Reply::Initializing { mcp_id } => frames(
                r@,
                "服务 "@,
                mcp_id@,
                " 正在初始化中，请稍后再试"@,
            ),
            Reply::Starting { mcp_id } => frames(
                r@,
                "服务 "@,
                mcp_id@,
                " 正在启动中，请稍后再试"@,
            ),
            Reply::UnhealthyWithoutConfig { mcp_id } => frames(
                r@,
                "服务 "@,
                mcp_id@,
                " 不健康且无法获取配置"@,
            ),
            Reply::StartFailed { mcp_id, reason } => frames(
                r@,
                "服务 "@,
                mcp_id@,
                " 启动失败: "@ + reason@,
            ),
            Reply::OneShotEnded { mcp_id } => frames(
                r@,
                "OneShot 服务 "@,
                mcp_id@,
                " 已结束，请重新启动"@,
            ),
            Reply::OneShotNeedsRequest { mcp_id } => frames(
                r@,
                "OneShot 服务 "@,
                mcp_id@,
                " 需要通过 check_status 接口启动"@,
            ),
            Reply::InternalError => r@.len() == 0,
        },
{
}

/// A client can tell answers apart by their code: two answers have the same one
/// only where both say that there is nothing to route to, or both that the
/// service is on its way. A bare internal error alone has none.
pub proof fn codes_tell_answers_apart(a: ReplyView, b: ReplyView)
    ensures
        a.code() is None <==> a is InternalError,
        a.code() == b.code() <==> {
            ||| a is InCooldown && b is InCooldown
            ||| a is UnhealthyWithoutConfig && b is UnhealthyWithoutConfig
            ||| a is StartFailed && b is StartFailed
            ||| a is OneShotEnded && b is OneShotEnded
            ||| a is OneShotNeedsRequest && b is OneShotNeedsRequest
            ||| a is InternalError && b is InternalError
            ||| (a is PathNotRecognized || a is NothingToStart) && (b is PathNotRecognized || b
                is NothingToStart)
            ||| (a is Initializing || a is Starting) && (b is Initializing || b is Starting)
        },
{
    reveal_strlit("0001");
    reveal_strlit("0002");
    reveal_strlit("0003");
    reveal_strlit("0004");
    reveal_strlit("0005");
    reveal_strlit("0006");
    reveal_strlit("0007");
    assert("0001"@[3] == '1' && "0002"@[3] == '2' && "0003"@[3] == '3' && "0004"@[3] == '4');
    assert("0005"@[3] == '5' && "0006"@[3] == '6' && "0007"@[3] == '7');
}

/// What is recorded for a request says whose fault it was: the client's where
/// the request cannot be served as it is, the service's where it is not up, and
/// nothing where the answer does not say.
pub proof fn recorded_status_says_whose_fault_it_was(reply: &Reply, r: Option<u16>)
    requires
        call_ensures(Reply::recorded_status, (reply,), r),
    ensures
        reply is PathNotRecognized ==> r == Some(400u16),
        reply is NothingToStart ==> r == Some(404u16),
        reply is InCooldown ==> r == Some(429u16),
        reply is Initializing || reply is Starting || reply is StartFailed
            ==> r == Some(503u16),
        reply is UnhealthyWithoutConfig || reply is OneShotEnded || reply is OneShotNeedsRequest
            || reply is InternalError ==> r is None,
{
}

} // verus!
