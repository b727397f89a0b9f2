//! The start of a service, step by step: its backend is asked for its protocol
//! where that is not known, a server is put in front of it, and what runs is
//! registered.
//!
//! The caller acts, and hands back what came of it.

use vstd::pervasive::unreached;
use vstd::prelude::*;

use crate::client_config::{client_headers, opt_bearer, McpClientConfig};
use crate::model::{McpProtocol, McpType};
use crate::server_builder::{BridgeRef, SseServerBuilder};
use crate::start_task::{
    after_build, backend_protocol, bridge_server, build_failure, command_is_run_as_configured,
    detected_protocol, detection_failure, is_plan, lemma_sends, plan_server, registration,
    same_args, same_env, sends_headers, sends_token, serves, step_views, Frontend,
    McpServerConfig, ProtocolChoice, RegistrationStep, ServerPlan, ServicePath, StreamServerPlan,
};
use crate::table::{distinct_keys, entries_or_none, Table};
use crate::text::copy_opt;

verus! {

/// A service that is to be started.
#[derive(Clone, Debug)]
pub struct StartRequest {
    pub config: McpServerConfig,
    pub path: ServicePath,
    pub mcp_type: McpType,
    /// The protocol that the configuration names, if it names one that there is.
    pub parsed: Option<McpProtocol>,
}

/// What a start waits for.
#[derive(Clone, Copy, Debug, PartialEq, Eq, Structural)]
pub enum StartPhase {
    /// Which protocol the backend speaks.
    Detecting,
    /// That the backend is connected, to be put behind a bridge.
    Connecting,
    /// That the server is built.
    Building,
    /// Nothing: the service is registered, or its start has failed.
    Done,
}

/// What has come of an action.
#[derive(Debug)]
pub enum StartEvent {
    /// The protocol of the backend, or the reason why it could not be detected.
    Detected(Result<McpProtocol, String>),
    /// The number of the bridge to the backend, or the reason why there is none.
    Connected(Result<u64, String>),
    /// Whether the server was built.
    Built(bool),
}

/// What is to be done next.
pub enum StartAction {
    /// Ask the backend at this URL for its protocol, with these headers.
    Detect { url: String, headers: Option<Table<String>> },
    /// Connect to the backend, and put it behind a bridge.
    Connect(McpClientConfig),
    /// Build a server for server-sent events.
    BuildSse(SseServerBuilder),
    /// Build a server for streamable HTTP.
    BuildStream(StreamServerPlan),
    /// Register the service.
    Register(Vec<RegistrationStep>),
    /// Give up with this message.
    Fail { message: String },
}

/// The event is what comes of an action in this phase.
pub open spec fn awaits(phase: StartPhase, event: StartEvent) -> bool {
    match phase {
        StartPhase::Detecting => event is Detected,
        StartPhase::Connecting => event is Connected,
        StartPhase::Building => event is Built,
        StartPhase::Done => false,
    }
}

impl StartRequest {
    /// The protocol of the backend, where it need not be asked.
    pub open spec fn known_protocol(self) -> Option<McpProtocol> {
        match self.config {
            McpServerConfig::Command(_) => Some(McpProtocol::Stdio),
            McpServerConfig::Url(u) => if u.protocol_name is Some {
                self.parsed
            } else {
                None
            },
        }
    }

    /// What the start waits for once the protocol is known. Where no server fits
    /// the backend, the start has failed.
    pub open spec fn planned_phase(self, protocol: McpProtocol) -> StartPhase {
        match (self.path.frontend, self.config, protocol) {
            (Frontend::Stdio, _, _) => StartPhase::Done,
            (Frontend::Sse { .. }, McpServerConfig::Url(_), McpProtocol::Stream) => {
                StartPhase::Connecting
            },
            (Frontend::Sse { .. }, McpServerConfig::Url(_), McpProtocol::Sse) => {
                StartPhase::Building
            },
            (Frontend::Stream, McpServerConfig::Url(_), McpProtocol::Stream) => {
                StartPhase::Building
            },
            (_, McpServerConfig::Url(_), _) => StartPhase::Done,
            (Frontend::Sse { .. }, McpServerConfig::Command(_), McpProtocol::Stream) => {
                StartPhase::Done
            },
            (_, McpServerConfig::Command(_), _) => StartPhase::Building,
        }
    }

    /// What the start waits for at first.
    pub open spec fn first_phase(self) -> StartPhase {
        match self.known_protocol() {
            Some(protocol) => self.planned_phase(protocol),
            None => StartPhase::Detecting,
        }
    }

    /// What the start waits for after an event.
    pub open spec fn next_phase(self, phase: StartPhase, event: StartEvent) -> StartPhase {
        match (phase, event) {
            (StartPhase::Detecting, StartEvent::Detected(Ok(protocol))) => self.planned_phase(
                protocol,
            ),
            (StartPhase::Connecting, StartEvent::Connected(Ok(_))) => StartPhase::Building,
            _ => StartPhase::Done,
        }
    }

    /// The phase is one that a start of this service can come to.
    pub open spec fn comes_to(self, phase: StartPhase) -> bool {
        match phase {
            StartPhase::Detecting => self.known_protocol() is None,
            StartPhase::Connecting => self.path.frontend is Sse && self.config is Url,
            StartPhase::Building => self.path.frontend !is Stdio,
            StartPhase::Done => true,
        }
    }

    /// What is done once the protocol is known.
    pub open spec fn acts_on(self, protocol: McpProtocol, action: StartAction) -> bool {
        match action {
            StartAction::Connect(client) => is_plan(
                Ok(ServerPlan::Bridge(client)),
                self.config,
                self.path,
                self.mcp_type,
                protocol,
            ),
            StartAction::BuildSse(builder) => is_plan(
                Ok(ServerPlan::Sse(builder)),
                self.config,
                self.path,
                self.mcp_type,
                protocol,
            ),
            StartAction::BuildStream(plan) => is_plan(
                Ok(ServerPlan::Stream(plan)),
                self.config,
                self.path,
                self.mcp_type,
                protocol,
            ),
            StartAction::Fail { message } => is_plan(
                Err(message),
                self.config,
                self.path,
                self.mcp_type,
                protocol,
            ),
            _ => false,
        }
    }

    /// What is done first. A backend whose protocol is not known is asked for
    /// it, with the headers that are sent to it and its token.
    pub open spec fn begins_with(self, action: StartAction) -> bool {
        match self.known_protocol() {
            Some(protocol) => self.acts_on(protocol, action),
            None => {
                let u = self.config->Url_0;
                &&& action is Detect
                &&& action->url@ == u.url@
                &&& action->headers is Some == (entries_or_none(u.headers).len() > 0
                    || u.auth_token is Some)
                &&& action->headers is Some ==> action->headers->0@ == client_headers(
                    entries_or_none(u.headers),
                    opt_bearer(u.auth_token),
                )
            },
        }
    }

    /// What is done after an event. Only a server that was built is registered.
    pub open spec fn goes_on_with(self, event: StartEvent, action: StartAction) -> bool {
        match event {
            StartEvent::Detected(Ok(protocol)) => self.acts_on(protocol, action),
            StartEvent::Detected(Err(reason)) => {
                &&& action is Fail
                &&& action->message@ == detection_failure(
                    self.config->Url_0.protocol_name,
                    reason@,
                )
            },
            StartEvent::Connected(Ok(number)) => {
                &&& action is BuildSse
                &&& serves(action->BuildSse_0, self.path, self.mcp_type)
                &&& action->BuildSse_0.backend_config is BackendBridge
                &&& action->BuildSse_0.backend_config->BackendBridge_0.mcp_id@ == self.path.mcp_id@
                &&& action->BuildSse_0.backend_config->BackendBridge_0.number == number
            },
            StartEvent::Connected(Err(reason)) => action is Fail && action->message@ == reason@,
            StartEvent::Built(true) => {
                &&& action is Register
                &&& step_views(action->Register_0@) == registration(self.path, self.mcp_type)
            },
            StartEvent::Built(false) => {
                &&& action is Fail
                &&& action->message@ == build_failure(self.path, self.mcp_type)
            },
        }
    }
}

/// Whether the event is what comes of an action in this phase.
pub fn start_expects(phase: StartPhase, event: &StartEvent) -> (r: bool)
    ensures
        r == awaits(phase, *event),
{
    match (phase, event) {
        (StartPhase::Detecting, StartEvent::Detected(_)) => true,
        (StartPhase::Connecting, StartEvent::Connected(_)) => true,
        (StartPhase::Building, StartEvent::Built(_)) => true,
        _ => false,
    }
}

fn act_on(request: &StartRequest, protocol: McpProtocol) -> (r: (StartPhase, StartAction))
    ensures
        r.0 == request.planned_phase(protocol),
        request.comes_to(r.0),
        request.acts_on(protocol, r.1),
{
    match plan_server(&request.config, &request.path, request.mcp_type, protocol) {
        Ok(ServerPlan::Bridge(client)) => (StartPhase::Connecting, StartAction::Connect(client)),
        Ok(ServerPlan::Sse(builder)) => (StartPhase::Building, StartAction::BuildSse(builder)),
        Ok(ServerPlan::Stream(plan)) => (StartPhase::Building, StartAction::BuildStream(plan)),
        Err(message) => (StartPhase::Done, StartAction::Fail { message }),
    }
}

/// Begins the start of a service.
pub fn start_begin(request: &StartRequest) -> (r: (StartPhase, StartAction))
    ensures
        r.0 == request.first_phase(),
        request.comes_to(r.0),
        request.begins_with(r.1),
{
    match backend_protocol(&request.config, request.parsed) {
        ProtocolChoice::Known(protocol) => act_on(request, protocol),
        ProtocolChoice::Detect { url, headers, .. } => (
            StartPhase::Detecting,
            StartAction::Detect { url, headers },
        ),
    }
}

/// Goes on with the start of a service.
pub fn start_step(request: &StartRequest, phase: StartPhase, event: StartEvent) -> (r: (
    StartPhase,
    StartAction,
))
    requires
        request.comes_to(phase),
        awaits(phase, event),
    ensures
        r.0 == request.next_phase(phase, event),
        request.comes_to(r.0),
        request.goes_on_with(event, r.1),
{
    match event {
        StartEvent::Detected(outcome) => {
            let protocol_name: Option<String> = match &request.config {
                McpServerConfig::Url(u) => copy_opt(&u.protocol_name),
                McpServerConfig::Command(_) => None,
            };
            match detected_protocol(&protocol_name, outcome) {
                Ok(protocol) => act_on(request, protocol),
                Err(message) => (StartPhase::Done, StartAction::Fail { message }),
            }
        },
        StartEvent::Connected(Ok(number)) => {
            let bridge = BridgeRef { mcp_id: request.path.mcp_id.clone(), number };
            match bridge_server(bridge, &request.path, request.mcp_type) {
                Some(builder) => (StartPhase::Building, StartAction::BuildSse(builder)),
                None => unreached(),
            }
        },
        StartEvent::Connected(Err(message)) => (StartPhase::Done, StartAction::Fail { message }),
        StartEvent::Built(built) => match after_build(&request.path, request.mcp_type, built) {
            Ok(steps) => (StartPhase::Done, StartAction::Register(steps)),
            Err(message) => (StartPhase::Done, StartAction::Fail { message }),
        },
    }
}

/// What a start waits for after some events.
pub open spec fn phase_after(request: StartRequest, events: Seq<StartEvent>) -> StartPhase
    decreases events.len(),
{
    if events.len() == 0 {
        request.first_phase()
    } else {
        request.next_phase(phase_after(request, events.drop_last()), events.last())
    }
}

/// The start has waited for each of the events.
pub open spec fn is_start(request: StartRequest, events: Seq<StartEvent>) -> bool
    decreases events.len(),
{
    events.len() == 0 || (is_start(request, events.drop_last()) && awaits(
        phase_after(request, events.drop_last()),
        events.last(),
    ))
}

/// Every phase that a start comes to is one for which the next step is defined.
pub proof fn start_never_gets_stuck(request: StartRequest, events: Seq<StartEvent>)
    requires
        is_start(request, events),
    ensures
        request.comes_to(phase_after(request, events)),
    decreases events.len(),
{
    if events.len() > 0 {
        start_never_gets_stuck(request, events.drop_last());
    }
}

/// A start ends after at most three events: what the protocol is, whether the
/// backend is connected, and whether the server is built.
pub proof fn start_ends(request: StartRequest, events: Seq<StartEvent>)
    requires
        is_start(request, events),
    ensures
        events.len() <= 3,
        events.len() == 3 ==> phase_after(request, events) is Done,
        phase_after(request, events) is Building ==> events.len() <= 2,
        phase_after(request, events) is Connecting ==> events.len() <= 1,
        phase_after(request, events) is Detecting ==> events.len() == 0,
    decreases events.len(),
{
    if events.len() > 0 {
        start_ends(request, events.drop_last());
    }
}

/// A service is registered only where its server was built, and nothing comes
/// after that; a start that fails has registered nothing.
pub proof fn only_a_built_server_is_registered(
    request: StartRequest,
    events: Seq<StartEvent>,
    actions: Seq<StartAction>,
    i: int,
)
    requires
        is_start(request, events),
        actions.len() == events.len() + 1,
        request.begins_with(actions[0]),
        forall|j: int|
            0 <= j < events.len() ==> request.goes_on_with(#[trigger] events[j], actions[j + 1]),
        0 <= i < actions.len(),
        actions[i] is Register,
    ensures
        i == events.len(),
        i > 0 && events[i - 1] == StartEvent::Built(true),
        phase_after(request, events) is Done,
{
    if i > 0 {
        assert(request.goes_on_with(events[i - 1], actions[i - 1 + 1]));
        lemma_prefix(request, events, i);
        assert(events.take(i).drop_last() =~= events.take(i - 1));
        assert(phase_after(request, events.take(i)) is Done);
        if i < events.len() {
            lemma_prefix(request, events, i + 1);
            assert(events.take(i + 1).drop_last() =~= events.take(i));
        }
        assert(events.take(events.len() as int) =~= events);
    }
}

proof fn lemma_prefix(request: StartRequest, events: Seq<StartEvent>, n: int)
    requires
        is_start(request, events),
        0 <= n <= events.len(),
    ensures
        is_start(request, events.take(n)),
    decreases events.len(),
{
    if n == events.len() {
        assert(events.take(n) =~= events);
    } else {
        lemma_prefix(request, events.drop_last(), n);
        assert(events.drop_last().take(n) =~= events.take(n));
    }
}

/// A backend whose protocol is known is never asked for it.
pub proof fn known_protocol_is_not_asked_for(
    request: StartRequest,
    events: Seq<StartEvent>,
)
    requires
        is_start(request, events),
        request.known_protocol() is Some,
    ensures
        phase_after(request, events) !is Detecting,
{
    start_never_gets_stuck(request, events);
}

/// The protocol of a command is known, and so is that of a URL whose
/// configuration names one that there is. Every other backend is asked.
pub proof fn only_a_url_is_asked_for_its_protocol(request: StartRequest)
    ensures
        request.config is Command ==> request.known_protocol() == Some(McpProtocol::Stdio),
        request.config is Url && request.config->Url_0.protocol_name is Some
            ==> request.known_protocol() == request.parsed,
        request.config is Url && request.config->Url_0.protocol_name is None
            ==> request.known_protocol() is None,
        request.known_protocol() is None <==> request.first_phase() is Detecting,
{
}

/// A backend is asked for its protocol under its whole URL, with every header
/// that is configured for it and with its token.
pub proof fn backend_is_asked_as_configured(request: StartRequest, action: StartAction)
    requires
        request.begins_with(action),
        request.known_protocol() is None,
    ensures
        ({
            let u = request.config->Url_0;
            &&& action is Detect
            &&& action->url@ == u.url@
            &&& action->headers is Some <==> u.auth_token is Some || (u.headers is Some
                && u.headers->0.entries().len() > 0)
            &&& u.auth_token is Some ==> sends_token(action->headers->0@, u.auth_token->0@)
            &&& action->headers is Some && u.headers is Some && distinct_keys(
                u.headers->0.entries(),
            ) ==> sends_headers(
                action->headers->0@,
                u.headers->0.entries(),
                u.auth_token is Some,
            )
        }),
{
    lemma_sends(request.config->Url_0);
}

/// Once its protocol is known, a start waits for what its action brings: a
/// backend that it connects to, a server that it builds, or nothing where it has
/// failed.
pub proof fn start_waits_for_what_it_does(
    request: StartRequest,
    protocol: McpProtocol,
    action: StartAction,
)
    requires
        request.acts_on(protocol, action),
    ensures
        match request.planned_phase(protocol) {
            StartPhase::Detecting => false,
            StartPhase::Connecting => action is Connect,
            StartPhase::Building => action is BuildSse || action is BuildStream,
            StartPhase::Done => action is Fail,
        },
{
}

/// A start goes on as the event says. A protocol that was detected is acted on,
/// a backend that was connected gets a server, a server that was built is
/// registered, and everything else ends the start.
pub proof fn start_goes_on_as_the_event_says(
    request: StartRequest,
    phase: StartPhase,
    event: StartEvent,
    action: StartAction,
)
    requires
        awaits(phase, event),
        request.comes_to(phase),
        request.goes_on_with(event, action),
    ensures
        phase is Detecting <==> event is Detected,
        phase is Connecting <==> event is Connected,
        phase is Building <==> event is Built,
        match event {
            StartEvent::Detected(Ok(protocol)) => {
                &&& request.acts_on(protocol, action)
                &&& request.next_phase(phase, event) == request.planned_phase(protocol)
            },
            StartEvent::Connected(Ok(number)) => {
                &&& request.next_phase(phase, event) is Building
                &&& action is BuildSse
                &&& action->BuildSse_0.backend_config is BackendBridge
                &&& action->BuildSse_0.backend_config->BackendBridge_0.number == number
                &&& action->BuildSse_0.backend_config->BackendBridge_0.mcp_id@
                    == request.path.mcp_id@
                &&& serves(action->BuildSse_0, request.path, request.mcp_type)
            },
            StartEvent::Built(true) => {
                &&& request.next_phase(phase, event) is Done
                &&& action is Register
                &&& step_views(action->Register_0@) == registration(
                    request.path,
                    request.mcp_type,
                )
            },
            _ => request.next_phase(phase, event) is Done && action is Fail,
        },
        event is Connected && event->Connected_0 is Err ==> action->message@
            == event->Connected_0->Err_0@,
        event is Detected && event->Detected_0 is Err ==> action->message@ == detection_failure(
            request.config->Url_0.protocol_name,
            event->Detected_0->Err_0@,
        ),
        event == StartEvent::Built(false) ==> action->message@ == build_failure(
            request.path,
            request.mcp_type,
        ),
{
}

/// A command is started at once, as it is configured: with all its arguments and
/// all its variables, behind the server that its clients use.
pub proof fn command_is_started_as_configured(request: StartRequest, action: StartAction)
    requires
        request.begins_with(action),
        request.config is Command,
    ensures
        ({
            let command = request.config->Command_0;
            match request.path.frontend {
                Frontend::Sse { .. } => {
                    &&& action is BuildSse
                    &&& serves(action->BuildSse_0, request.path, request.mcp_type)
                    &&& action->BuildSse_0.backend_config is Stdio
                    &&& action->BuildSse_0.backend_config->command@ == command.command@
                    &&& same_args(action->BuildSse_0.backend_config->args, command.args)
                    &&& same_env(action->BuildSse_0.backend_config->env, command.env)
                },
                Frontend::Stream => {
                    &&& action is BuildStream
                    &&& action->BuildStream_0.mcp_id@ == request.path.mcp_id@
                    &&& action->BuildStream_0.backend is Stdio
                    &&& action->BuildStream_0.backend->command@ == command.command@
                    &&& same_args(action->BuildStream_0.backend->args, command.args)
                    &&& same_env(action->BuildStream_0.backend->env, command.env)
                },
                Frontend::Stdio => action is Fail,
            }
        }),
{
    let plan: Result<ServerPlan, String> = match action {
        StartAction::BuildSse(builder) => Ok(ServerPlan::Sse(builder)),
        StartAction::BuildStream(plan) => Ok(ServerPlan::Stream(plan)),
        StartAction::Connect(client) => Ok(ServerPlan::Bridge(client)),
        StartAction::Fail { message } => Err(message),
        _ => arbitrary(),
    };
    if request.path.frontend !is Stdio {
        command_is_run_as_configured(
            plan,
            request.config->Command_0,
            request.path,
            request.mcp_type,
            McpProtocol::Stdio,
        );
    }
}

/// A start begins and goes on as its phases say: each step is made for the phase
/// that the start has come to, and brings it to the next.
pub proof fn start_makes_the_steps_of_its_phases(
    request: &StartRequest,
    events: Seq<StartEvent>,
    event: StartEvent,
    first: (StartPhase, StartAction),
    next: (StartPhase, StartAction),
    taken: bool,
)
    requires
        is_start(*request, events),
        call_ensures(start_begin, (request,), first),
        call_ensures(start_expects, (phase_after(*request, events), &event), taken),
        call_ensures(start_step, (request, phase_after(*request, events), event), next),
    ensures
        first.0 == phase_after(*request, Seq::empty()),
        request.begins_with(first.1),
        taken <==> is_start(*request, events.push(event)),
        taken ==> next.0 == phase_after(*request, events.push(event)),
        taken ==> request.goes_on_with(event, next.1),
{
    assert(events.push(event).drop_last() =~= events);
    start_never_gets_stuck(*request, events);
}

/// Each event that a start waits for can be acted on.
pub proof fn start_can_be_continued(
    request: &StartRequest,
    events: Seq<StartEvent>,
    event: StartEvent,
)
    requires
        is_start(*request, events.push(event)),
    ensures
        call_requires(start_step, (request, phase_after(*request, events), event)),
{
    assert(events.push(event).drop_last() =~= events);
    start_never_gets_stuck(*request, events);
}

} // verus!
