//! What each event of a run of the request router leads to.
//!
//! These laws speak of what is seen from outside: what has happened, and what is
//! done next.

use vstd::prelude::*;

use crate::model::{McpType, ServiceStatus};
use crate::router::{
    begin, expects, fits, next_move, step, Action, ActionView, ConfigSource, Event, Phase,
    PhaseView, ReplyView, RouterRequest, RouterState, Target,
};
use crate::router_laws::{is_run, last_move};

verus! {

/// What is done after `events`.
pub open spec fn action_after(req: RouterRequest, events: Seq<Event>) -> ActionView {
    last_move(req, events).action
}

/// The request is answered with `reply` after `events`.
pub open spec fn answers(req: RouterRequest, events: Seq<Event>, reply: ReplyView) -> bool {
    action_after(req, events) == (ActionView::Answer { reply })
}

/// It has been asked whether the service has a handler.
pub open spec fn handler_was_sought(events: Seq<Event>) -> bool {
    events.contains(Event::Handler(true)) || events.contains(Event::Handler(false))
}

/// A start begins with the configuration that came with the request, where it
/// says how to start a service, and else with the one that was registered for
/// the service which the path names.
pub open spec fn begins_a_start(req: RouterRequest, action: ActionView) -> bool {
    match req.header_config {
        Some(config) if config.has_json => action == (ActionView::AskRestart {
            mcp_id: config.mcp_id@,
        }),
        _ => action == (ActionView::ReadCachedConfig { mcp_id: req.route->0.mcp_id@ }),
    }
}

/// The service that is started for a request whose service does not run.
pub open spec fn to_be_started(req: RouterRequest) -> Seq<char> {
    match req.header_config {
        Some(config) if config.has_json => config.mcp_id@,
        _ => req.route->0.mcp_id@,
    }
}

proof fn lemma_contains(events: Seq<Event>, e: Event)
    requires
        events.len() > 0,
    ensures
        events.contains(e) == (events.drop_last().contains(e) || events.last() == e),
{
    let shorter = events.drop_last();
    if events.contains(e) {
        let i = choose|i: int| 0 <= i < events.len() && events[i] == e;
        if i < shorter.len() {
            assert(shorter[i] == e);
        }
    }
    if shorter.contains(e) {
        let i = choose|i: int| 0 <= i < shorter.len() && shorter[i] == e;
        assert(events[i] == e);
    }
    if events.last() == e {
        assert(events[events.len() - 1] == e);
    }
}

/// What has happened, as far as the phase of a run tells.
spec fn phase_tells(req: RouterRequest, events: Seq<Event>) -> bool {
    let m = last_move(req, events);
    let route = events.contains(Event::Route(true));
    let none = events.contains(Event::Route(false));
    let handler = events.contains(Event::Handler(true));
    let orphan = events.contains(Event::Handler(false));
    let brought = req.header_config is Some && req.header_config->0.has_json;
    let id = req.route->0.mcp_id@;
    let to_start = !handler && (route && orphan && !none || none && !route && !orphan);
    match m.state.phase {
        PhaseView::FindingRoute => events.len() == 0 && m.action is FindRoute,
        PhaseView::ReadingStatus => route && !none && !handler && !orphan && m.action
            is ReadStatus,
        PhaseView::Sleeping => route && !none && !handler && !orphan && m.action is Sleep,
        PhaseView::CleaningFailed(reason) => {
            &&& route && !none && !handler && !orphan && m.action is CleanUp
            &&& events.len() > 0
            &&& events.last() is Status
            &&& events.last()->status is Some
            &&& events.last()->status->0 is Error
            &&& events.last()->status->0->Error_0@ == reason
        },
        PhaseView::Locking => route && !none && !handler && !orphan && m.action is TryLock,
        PhaseView::FindingHandler => route && !none && !handler && !orphan && m.action
            is FindHandler,
        PhaseView::ReadingHealth => route && !none && handler && !orphan && m.action
            is ReadCachedHealth,
        PhaseView::Probing => route && !none && handler && !orphan && m.action is ProbeHealth,
        PhaseView::RecordingHealth(h) => route && !none && handler && !orphan && m.action
            is RecordHealth && m.action->healthy == h,
        PhaseView::ReleasingHealthy => route && !none && handler && !orphan && m.action
            is ReleaseLock,
        PhaseView::ReadingUnhealthyKind => route && !none && handler && !orphan && m.action
            is ReadType,
        PhaseView::CleaningUnhealthy(one_shot) => {
            &&& route && !none && handler && !orphan && m.action is CleanUp
            &&& events.len() > 0
            &&& events.last() is Kind
            &&& one_shot == (events.last()->Kind_0 == Some(McpType::OneShot))
        },
        PhaseView::RegisteringForRestart => route && !none && handler && !orphan && brought
            && m.action is RegisterHeaderConfig,
        PhaseView::ReadingConfigForRestart => route && !none && handler && !orphan && !brought
            && m.action is ReadCachedConfig,
        PhaseView::ReadingOrphanKind => route && !none && !handler && orphan && m.action
            is ReadType,
        PhaseView::CleaningOrphan => {
            &&& route && !none && !handler && orphan && m.action is CleanUp
            &&& events.len() > 0
            &&& events.last() == Event::Kind(Some(McpType::OneShot))
        },
        PhaseView::ReleasingOrphan => route && !none && !handler && orphan && m.action
            is ReleaseLock,
        PhaseView::AskingForHeader(mcp_id) => to_start && brought && mcp_id
            == req.header_config->0.mcp_id@ && m.action is AskRestart,
        PhaseView::LockingForHeader(mcp_id) => to_start && brought && mcp_id
            == req.header_config->0.mcp_id@ && m.action is TryLock,
        PhaseView::RegisteringForStart => to_start && brought && m.action
            is RegisterHeaderConfig,
        PhaseView::ReadingConfigForStart => to_start && !brought && m.action
            is ReadCachedConfig,
        PhaseView::AskingForCache => to_start && !brought && m.action is AskRestart,
        PhaseView::LockingForCache => to_start && !brought && m.action is TryLock,
        PhaseView::Starting => m.action is Start,
        PhaseView::Forwarding => m.action is Forward,
        PhaseView::Finished => m.action is Answer || m.action is Deliver,
    }
}

proof fn lemma_phase_tells(req: RouterRequest, events: Seq<Event>)
    requires
        is_run(req, events),
    ensures
        phase_tells(req, events),
    decreases events.len(),
{
    if events.len() > 0 {
        lemma_phase_tells(req, events.drop_last());
        lemma_contains(events, Event::Route(true));
        lemma_contains(events, Event::Route(false));
        lemma_contains(events, Event::Handler(true));
        lemma_contains(events, Event::Handler(false));
    }
}

proof fn lemma_next(req: RouterRequest, events: Seq<Event>, event: Event)
    requires
        is_run(req, events.push(event)),
    ensures
        is_run(req, events),
        phase_tells(req, events),
        fits(last_move(req, events).state.phase, event),
        last_move(req, events.push(event)) == next_move(
            req,
            last_move(req, events).state.phase,
            event,
        ),
{
    assert(events.push(event).drop_last() =~= events);
    lemma_phase_tells(req, events);
}

/// Each action brings an event of its own kind, and a request that is answered
/// brings none.
pub proof fn each_action_brings_its_event(req: RouterRequest, events: Seq<Event>, event: Event)
    requires
        is_run(req, events),
    ensures
        is_run(req, events.push(event)) <==> match action_after(req, events) {
            ActionView::FindRoute { .. } => event is Route,
            ActionView::ReadStatus { .. } => event is Status,
            ActionView::Sleep { .. } => event is Awake,
            ActionView::TryLock { .. } => event is Lock,
            ActionView::FindHandler { .. } => event is Handler,
            ActionView::ReadCachedHealth { .. } => event is CachedHealth,
            ActionView::ProbeHealth { .. } => event is Health,
            ActionView::RecordHealth { .. } => event is Done,
            ActionView::ReleaseLock { .. } => event is Done,
            ActionView::ReadType { .. } => event is Kind,
            ActionView::CleanUp { .. } => event is Done,
            ActionView::AskRestart { .. } => event is MayRestart,
            ActionView::ReadCachedConfig { .. } => event is CachedConfig,
            ActionView::RegisterHeaderConfig { .. } => event is Done,
            ActionView::Start { .. } => event is Started,
            ActionView::Forward { .. } => event is Answered,
            ActionView::Answer { .. } => false,
            ActionView::Deliver => false,
        },
{
    assert(events.push(event).drop_last() =~= events);
    lemma_phase_tells(req, events);
}

/// The route of a request is looked for by the base path in its path. A path
/// that cannot be read is answered at once.
pub proof fn route_is_sought_by_the_base_path(req: RouterRequest)
    ensures
        match req.route {
            Some(route) => action_after(req, Seq::empty()) == (ActionView::FindRoute {
                base_path: route.base_path@,
            }),
            None => answers(
                req,
                Seq::empty(),
                ReplyView::PathNotRecognized { path: req.path@ },
            ),
        },
{
}

/// Where a route is registered, the service is looked at; where none is, it is
/// started.
pub proof fn route_decides_whether_to_start(req: RouterRequest, events: Seq<Event>, found: bool)
    requires
        is_run(req, events.push(Event::Route(found))),
    ensures
        found ==> action_after(req, events.push(Event::Route(found))) == (ActionView::ReadStatus {
            mcp_id: req.route->0.mcp_id@,
        }),
        !found ==> begins_a_start(req, action_after(req, events.push(Event::Route(found)))),
{
    lemma_next(req, events, Event::Route(found));
}

/// A service that is pending is waited for, for fifteen seconds at most; one
/// that failed to start is cleaned up; for every other one the start lock is
/// tried, however long the wait was.
pub proof fn status_decides_whether_to_wait(
    req: RouterRequest,
    events: Seq<Event>,
    status: Option<ServiceStatus>,
    waited_ms: u64,
)
    requires
        is_run(req, events.push(Event::Status { status, waited_ms })),
    ensures
        ({
            let id = req.route->0.mcp_id@;
            let after = events.push(Event::Status { status, waited_ms });
            &&& status == Some(ServiceStatus::Pending) && waited_ms < 15_000 ==> action_after(
                req,
                after,
            ) == (ActionView::Sleep { ms: 150 })
            &&& status == Some(ServiceStatus::Pending) && waited_ms >= 15_000 ==> answers(
                req,
                after,
                ReplyView::Initializing { mcp_id: id },
            )
            &&& status is Some && status->0 is Error ==> action_after(req, after) == (
            ActionView::CleanUp { mcp_id: id })
            &&& status is None || !(status->0 is Pending || status->0 is Error) ==> action_after(
                req,
                after,
            ) == (ActionView::TryLock { mcp_id: id })
        }),
{
    lemma_next(req, events, Event::Status { status, waited_ms });
}

/// The answer on a service that failed to start gives the whole reason.
pub proof fn failed_start_is_answered_with_its_reason(
    req: RouterRequest,
    events: Seq<Event>,
    reason: String,
    waited_ms: u64,
)
    requires
        is_run(
            req,
            events.push(
                Event::Status { status: Some(ServiceStatus::Error(reason)), waited_ms },
            ).push(Event::Done),
        ),
    ensures
        answers(
            req,
            events.push(
                Event::Status { status: Some(ServiceStatus::Error(reason)), waited_ms },
            ).push(Event::Done),
            ReplyView::StartFailed { mcp_id: req.route->0.mcp_id@, reason: reason@ },
        ),
{
    let failed = events.push(
        Event::Status { status: Some(ServiceStatus::Error(reason)), waited_ms },
    );
    lemma_next(req, failed, Event::Done);
    lemma_next(req, events, failed.last());
}

/// After each sleep the status of the service is read again.
pub proof fn status_is_read_after_each_sleep(req: RouterRequest, events: Seq<Event>)
    requires
        is_run(req, events.push(Event::Awake)),
    ensures
        action_after(req, events.push(Event::Awake)) == (ActionView::ReadStatus {
            mcp_id: req.route->0.mcp_id@,
        }),
{
    lemma_next(req, events, Event::Awake);
}

/// A service with a route whose start lock is taken is asked for its handler,
/// however long the wait was. Where another request holds the lock, it is waited
/// for, for fifteen seconds at most.
pub proof fn taken_lock_leads_to_the_handler(
    req: RouterRequest,
    events: Seq<Event>,
    taken: bool,
    waited_ms: u64,
)
    requires
        is_run(req, events.push(Event::Lock { taken, waited_ms })),
        events.contains(Event::Route(true)),
        !handler_was_sought(events),
    ensures
        ({
            let id = req.route->0.mcp_id@;
            let after = events.push(Event::Lock { taken, waited_ms });
            &&& taken ==> action_after(req, after) == (ActionView::FindHandler { mcp_id: id })
            &&& !taken && waited_ms < 15_000 ==> action_after(req, after) == (ActionView::Sleep {
                ms: 150,
            })
            &&& !taken && waited_ms >= 15_000 ==> answers(
                req,
                after,
                ReplyView::Starting { mcp_id: id },
            )
        }),
{
    lemma_next(req, events, Event::Lock { taken, waited_ms });
}

/// The health of a service with a handler is looked up; of one without, its
/// kind is.
pub proof fn handler_leads_to_the_health(req: RouterRequest, events: Seq<Event>, found: bool)
    requires
        is_run(req, events.push(Event::Handler(found))),
    ensures
        action_after(req, events.push(Event::Handler(found))) == if found {
            ActionView::ReadCachedHealth { mcp_id: req.route->0.mcp_id@ }
        } else {
            ActionView::ReadType { mcp_id: req.route->0.mcp_id@ }
        },
{
    lemma_next(req, events, Event::Handler(found));
}

/// Where no health was recorded lately, the service is probed, and what is found
/// is recorded as it is.
pub proof fn unknown_health_is_probed_and_recorded(
    req: RouterRequest,
    events: Seq<Event>,
    healthy: bool,
)
    ensures
        is_run(req, events.push(Event::CachedHealth(None))) ==> action_after(
            req,
            events.push(Event::CachedHealth(None)),
        ) == (ActionView::ProbeHealth { mcp_id: req.route->0.mcp_id@ }),
        is_run(req, events.push(Event::Health(healthy))) ==> action_after(
            req,
            events.push(Event::Health(healthy)),
        ) == (ActionView::RecordHealth { mcp_id: req.route->0.mcp_id@, healthy }),
{
    if is_run(req, events.push(Event::CachedHealth(None))) {
        lemma_next(req, events, Event::CachedHealth(None));
    }
    if is_run(req, events.push(Event::Health(healthy))) {
        lemma_next(req, events, Event::Health(healthy));
    }
}

/// A recorded health counts as one that was just found: a healthy service is
/// released, and of an unhealthy one the kind is looked up.
pub proof fn health_decides(req: RouterRequest, events: Seq<Event>, healthy: bool)
    ensures
        ({
            let next = if healthy {
                ActionView::ReleaseLock { mcp_id: req.route->0.mcp_id@ }
            } else {
                ActionView::ReadType { mcp_id: req.route->0.mcp_id@ }
            };
            let cached = events.push(Event::CachedHealth(Some(healthy)));
            let probed = events.push(Event::Health(healthy)).push(Event::Done);
            &&& is_run(req, cached) ==> action_after(req, cached) == next
            &&& is_run(req, probed) ==> action_after(req, probed) == next
        }),
{
    if is_run(req, events.push(Event::CachedHealth(Some(healthy)))) {
        lemma_next(req, events, Event::CachedHealth(Some(healthy)));
    }
    if is_run(req, events.push(Event::Health(healthy)).push(Event::Done)) {
        lemma_next(req, events.push(Event::Health(healthy)), Event::Done);
        lemma_next(req, events, Event::Health(healthy));
    }
}

/// Once the lock of a service is given back, a service with a handler gets the
/// request, and one without is started.
pub proof fn released_service_gets_the_request(req: RouterRequest, events: Seq<Event>)
    requires
        is_run(req, events.push(Event::Done)),
        action_after(req, events) is ReleaseLock,
    ensures
        events.contains(Event::Handler(true)) ==> action_after(req, events.push(Event::Done)) == (
        ActionView::Forward { target: Target::Found }),
        !events.contains(Event::Handler(true)) ==> begins_a_start(
            req,
            action_after(req, events.push(Event::Done)),
        ),
{
    lemma_next(req, events, Event::Done);
}

/// A service that has been found healthy gets the request: until it has
/// answered, the request is on its way there and nothing else is done with it.
pub proof fn healthy_service_gets_the_request(req: RouterRequest, events: Seq<Event>)
    requires
        is_run(req, events),
        events.contains(Event::CachedHealth(Some(true))) || events.contains(Event::Health(true)),
    ensures
        match events.last() {
            Event::Health(healthy) => action_after(req, events) == (ActionView::RecordHealth {
                mcp_id: req.route->0.mcp_id@,
                healthy: true,
            }),
            Event::CachedHealth(_) => action_after(req, events) == (ActionView::ReleaseLock {
                mcp_id: req.route->0.mcp_id@,
            }),
            Event::Done => {
                ||| action_after(req, events) == (ActionView::ReleaseLock {
                    mcp_id: req.route->0.mcp_id@,
                })
                ||| action_after(req, events) == (ActionView::Forward { target: Target::Found })
            },
            Event::Answered(answered) => if answered {
                action_after(req, events) is Deliver
            } else {
                answers(req, events, ReplyView::InternalError)
            },
            _ => false,
        },
{
    lemma_healthy(req, events);
}

proof fn lemma_healthy(req: RouterRequest, events: Seq<Event>)
    requires
        is_run(req, events),
        events.contains(Event::CachedHealth(Some(true))) || events.contains(Event::Health(true)),
    ensures
        ({
            let m = last_move(req, events);
            &&& events.len() > 0
            &&& m.state.phase == PhaseView::RecordingHealth(true) || m.state.phase
                is ReleasingHealthy || m.state.phase is Forwarding || m.state.phase is Finished
            &&& m.state.phase is RecordingHealth <==> m.action == (ActionView::RecordHealth {
                mcp_id: req.route->0.mcp_id@,
                healthy: true,
            })
            &&& m.state.phase is RecordingHealth <==> events.last() is Health
            &&& events.last() is CachedHealth ==> m.state.phase is ReleasingHealthy
            &&& m.state.phase is ReleasingHealthy <==> m.action == (ActionView::ReleaseLock {
                mcp_id: req.route->0.mcp_id@,
            })
            &&& m.state.phase is ReleasingHealthy ==> events.last() is CachedHealth
                || events.last() is Done
            &&& m.state.phase is Forwarding <==> m.action == (ActionView::Forward {
                target: Target::Found,
            })
            &&& m.state.phase is Forwarding ==> events.last() is Done
            &&& m.state.phase is Finished <==> events.last() is Answered
            &&& m.state.phase is Finished && events.last()->Answered_0 ==> m.action is Deliver
            &&& m.state.phase is Finished && !events.last()->Answered_0 ==> m.action == (
            ActionView::Answer { reply: ReplyView::InternalError })
        }),
    decreases events.len(),
{
    lemma_contains(events, Event::CachedHealth(Some(true)));
    lemma_contains(events, Event::Health(true));
    let shorter = events.drop_last();
    lemma_phase_tells(req, shorter);
    if shorter.contains(Event::CachedHealth(Some(true))) || shorter.contains(Event::Health(true)) {
        lemma_healthy(req, shorter);
    }
}

/// Once its kind is known, an unhealthy service is cleaned up. A service without
/// a handler is cleaned up where it is a one-shot, and else it is released.
pub proof fn kind_decides_whether_to_clean_up(
    req: RouterRequest,
    events: Seq<Event>,
    kind: Option<McpType>,
)
    requires
        is_run(req, events.push(Event::Kind(kind))),
    ensures
        action_after(req, events.push(Event::Kind(kind))) == if events.contains(
            Event::Handler(true),
        ) || kind == Some(McpType::OneShot) {
            ActionView::CleanUp { mcp_id: req.route->0.mcp_id@ }
        } else {
            ActionView::ReleaseLock { mcp_id: req.route->0.mcp_id@ }
        },
{
    lemma_next(req, events, Event::Kind(kind));
}

/// An unhealthy service that has been cleaned up is started again, from the
/// configuration that came with the request or else from the registered one. A
/// one-shot is not: its client is told that it has ended.
pub proof fn unhealthy_service_is_restarted(
    req: RouterRequest,
    events: Seq<Event>,
    kind: Option<McpType>,
)
    requires
        is_run(req, events.push(Event::Kind(kind)).push(Event::Done)),
        action_after(req, events.push(Event::Kind(kind))) is CleanUp,
    ensures
        ({
            let after = events.push(Event::Kind(kind)).push(Event::Done);
            let id = req.route->0.mcp_id@;
            if kind == Some(McpType::OneShot) {
                answers(req, after, ReplyView::OneShotEnded { mcp_id: id })
            } else {
                match req.header_config {
                    Some(config) if config.has_json => action_after(req, after) == (
                    ActionView::RegisterHeaderConfig { mcp_id: config.mcp_id@ }),
                    _ => action_after(req, after) == (ActionView::ReadCachedConfig { mcp_id: id }),
                }
            }
        }),
{
    lemma_next(req, events.push(Event::Kind(kind)), Event::Done);
    lemma_next(req, events, Event::Kind(kind));
}

/// An unhealthy service is started from its registered configuration whatever
/// its kind. A service that does not run is started from it only where it is
/// persistent, and only after it was asked whether it may be. Where nothing is
/// registered, nothing is started.
pub proof fn registered_configuration_decides(
    req: RouterRequest,
    events: Seq<Event>,
    config: Option<McpType>,
)
    requires
        is_run(req, events.push(Event::CachedConfig(config))),
    ensures
        ({
            let after = events.push(Event::CachedConfig(config));
            let id = req.route->0.mcp_id@;
            if events.contains(Event::Handler(true)) {
                match config {
                    Some(_) => action_after(req, after) == (ActionView::Start {
                        source: ConfigSource::Cache,
                    }),
                    None => answers(
                        req,
                        after,
                        ReplyView::UnhealthyWithoutConfig { mcp_id: id },
                    ),
                }
            } else {
                match config {
                    Some(McpType::Persistent) => action_after(req, after) == (
                    ActionView::AskRestart { mcp_id: id }),
                    Some(McpType::OneShot) => answers(
                        req,
                        after,
                        ReplyView::OneShotNeedsRequest { mcp_id: id },
                    ),
                    None => answers(req, after, ReplyView::NothingToStart { path: req.path@ }),
                }
            }
        }),
{
    lemma_next(req, events, Event::CachedConfig(config));
}

/// A service that does not run is started unless it was started a moment ago.
pub proof fn cooldown_decides_whether_to_start(
    req: RouterRequest,
    events: Seq<Event>,
    may_restart: bool,
)
    requires
        is_run(req, events.push(Event::MayRestart(may_restart))),
    ensures
        ({
            let after = events.push(Event::MayRestart(may_restart));
            if may_restart {
                action_after(req, after) == (ActionView::TryLock { mcp_id: to_be_started(req) })
            } else {
                answers(req, after, ReplyView::InCooldown { mcp_id: to_be_started(req) })
            }
        }),
{
    lemma_next(req, events, Event::MayRestart(may_restart));
}

/// A service that does not run is started once its lock is taken, however long
/// the wait was: at once from the registered configuration, and from one that
/// came with the request after that has been registered. Where another request
/// is starting it, the client is told so.
pub proof fn taken_lock_leads_to_the_start(
    req: RouterRequest,
    events: Seq<Event>,
    taken: bool,
    waited_ms: u64,
)
    requires
        is_run(req, events.push(Event::Lock { taken, waited_ms })),
        events.contains(Event::Route(false)) || handler_was_sought(events),
    ensures
        ({
            let after = events.push(Event::Lock { taken, waited_ms });
            if !taken {
                answers(req, after, ReplyView::Starting { mcp_id: to_be_started(req) })
            } else {
                match req.header_config {
                    Some(config) if config.has_json => action_after(req, after) == (
                    ActionView::RegisterHeaderConfig { mcp_id: config.mcp_id@ }),
                    _ => action_after(req, after) == (ActionView::Start {
                        source: ConfigSource::Cache,
                    }),
                }
            }
        }),
{
    lemma_next(req, events, Event::Lock { taken, waited_ms });
}

/// Once a configuration that came with a request is registered, the service is
/// started from it.
pub proof fn registered_header_is_started_from(req: RouterRequest, events: Seq<Event>)
    requires
        is_run(req, events.push(Event::Done)),
        action_after(req, events) is RegisterHeaderConfig,
    ensures
        action_after(req, events.push(Event::Done)) == (ActionView::Start {
            source: ConfigSource::Header,
        }),
{
    lemma_next(req, events, Event::Done);
}

/// A service that was started gets the request. Where it could not be started,
/// or where the service that got the request does not answer, the request ends
/// in a bare internal error.
pub proof fn started_service_gets_the_request(
    req: RouterRequest,
    events: Seq<Event>,
    well: bool,
)
    ensures
        ({
            let started = events.push(Event::Started(well));
            let answered = events.push(Event::Answered(well));
            &&& is_run(req, started) && well ==> action_after(req, started) == (
            ActionView::Forward { target: Target::Started })
            &&& is_run(req, answered) && well ==> action_after(req, answered) is Deliver
            &&& is_run(req, started) && !well ==> answers(req, started, ReplyView::InternalError)
            &&& is_run(req, answered) && !well ==> answers(req, answered, ReplyView::InternalError)
        }),
{
    if is_run(req, events.push(Event::Started(well))) {
        lemma_next(req, events, Event::Started(well));
    }
    if is_run(req, events.push(Event::Answered(well))) {
        lemma_next(req, events, Event::Answered(well));
    }
}

/// Each answer has its cause: the event that came last. A client is told that a
/// service is still being started only where it is pending, or another request
/// holds its lock, and where there is a route only after fifteen seconds.
pub proof fn each_answer_has_its_cause(req: RouterRequest, events: Seq<Event>, reply: ReplyView)
    requires
        is_run(req, events),
        answers(req, events, reply),
    ensures
        match reply {
            ReplyView::PathNotRecognized { .. } => req.route is None,
            ReplyView::Initializing { mcp_id } => {
                &&& events.last() is Status
                &&& events.last()->status == Some(ServiceStatus::Pending)
                &&& events.last()->Status_waited_ms >= 15_000
                &&& mcp_id == req.route->0.mcp_id@
            },
            ReplyView::Starting { mcp_id } => {
                &&& events.last() is Lock
                &&& !events.last()->taken
                &&& events.contains(Event::Route(true)) && !handler_was_sought(events)
                    ==> events.last()->Lock_waited_ms >= 15_000 && mcp_id == req.route->0.mcp_id@
            },
            ReplyView::StartFailed { .. } => {
                let before = events.drop_last();
                &&& events.last() is Done
                &&& before.last() is Status
                &&& before.last()->status is Some
                &&& before.last()->status->0 is Error
            },
            ReplyView::InCooldown { .. } => events.last() == Event::MayRestart(false),
            ReplyView::UnhealthyWithoutConfig { .. } => events.last() == Event::CachedConfig(None)
                && events.contains(Event::Handler(true)),
            ReplyView::NothingToStart { .. } => events.last() == Event::CachedConfig(None)
                && !events.contains(Event::Handler(true)),
            ReplyView::OneShotEnded { .. } => {
                let before = events.drop_last();
                &&& events.last() is Done
                &&& before.last() == Event::Kind(Some(McpType::OneShot))
            },
            ReplyView::OneShotNeedsRequest { .. } => events.last() == Event::CachedConfig(
                Some(McpType::OneShot),
            ),
            ReplyView::InternalError => events.last() == Event::Started(false) || events.last()
                == Event::Answered(false),
        },
{
    lemma_phase_tells(req, events);
    if events.len() > 0 {
        lemma_phase_tells(req, events.drop_last());
        lemma_contains(events, Event::Route(true));
        lemma_contains(events, Event::Handler(true));
        lemma_contains(events, Event::Handler(false));
    }
}

/// The machine makes the moves of a run: it begins with its first one, and each
/// step after an event makes the one that follows.
pub proof fn machine_makes_the_moves_of_a_run(
    req: &RouterRequest,
    events: Seq<Event>,
    state: &RouterState,
    event: &Event,
    first: (RouterState, Action),
    next: (RouterState, Action),
)
    requires
        is_run(*req, events.push(*event)),
        state@ == last_move(*req, events).state,
        call_ensures(begin, (req,), first),
        call_ensures(step, (req, state, event), next),
    ensures
        first.0@ == last_move(*req, Seq::empty()).state,
        first.1@ == action_after(*req, Seq::empty()),
        next.0@ == last_move(*req, events.push(*event)).state,
        next.1@ == action_after(*req, events.push(*event)),
{
    lemma_next(*req, events, *event);
}

/// The machine takes an event exactly where the run goes on with it.
pub proof fn machine_takes_the_events_of_a_run(
    req: &RouterRequest,
    events: Seq<Event>,
    phase: &Phase,
    event: &Event,
    r: bool,
)
    requires
        is_run(*req, events),
        phase@ == last_move(*req, events).state.phase,
        call_ensures(expects, (phase, event), r),
    ensures
        r <==> is_run(*req, events.push(*event)),
{
    assert(events.push(*event).drop_last() =~= events);
}

/// With the start lock of a service in hand, its handler is looked for, whatever
/// time has been waited. Without it, the client is told that the service is
/// starting only once the wait is over.
pub proof fn lock_in_hand_leads_to_the_handler(
    req: &RouterRequest,
    state: &RouterState,
    taken: bool,
    waited_ms: u64,
    r: (RouterState, Action),
)
    requires
        req.route is Some,
        state.phase is Locking,
        call_ensures(step, (req, state, &Event::Lock { taken, waited_ms }), r),
    ensures
        taken ==> r.0.locked && r.1 is FindHandler && r.1@ == (ActionView::FindHandler {
            mcp_id: req.route->0.mcp_id@,
        }),
        !taken && waited_ms >= 15_000 ==> r.0.phase is Finished && r.1@ == (ActionView::Answer {
            reply: ReplyView::Starting { mcp_id: req.route->0.mcp_id@ },
        }),
        !taken && waited_ms < 15_000 ==> r.0.phase is Sleeping && r.1@ == (ActionView::Sleep {
            ms: 150,
        }),
        !taken ==> !r.0.locked,
{
}

/// In every run the machine can make a step on each event that the run goes on
/// with.
pub proof fn machine_never_gets_stuck(
    req: &RouterRequest,
    events: Seq<Event>,
    state: &RouterState,
    event: &Event,
)
    requires
        is_run(*req, events.push(*event)),
        state@ == last_move(*req, events).state,
    ensures
        call_requires(step, (req, state, event)),
{
    lemma_next(*req, events, *event);
    if req.route is None {
        lemma_no_route(*req, events);
    }
}

proof fn lemma_no_route(req: RouterRequest, events: Seq<Event>)
    requires
        is_run(req, events),
        req.route is None,
    ensures
        events.len() == 0,
        last_move(req, events).state.phase is Finished,
    decreases events.len(),
{
    if events.len() > 0 {
        lemma_no_route(req, events.drop_last());
    }
}

} // verus!
