//! What holds of every run of the request router.

use vstd::prelude::*;

use crate::model::{McpType, ServiceStatus};
use crate::router::{
    answer, first_move, fits, next_move, to, ActionView, Event, Move,
    PhaseView, ReplyView, RouterRequest, Target, POLL_INTERVAL_MS, WAIT_LIMIT_MS,
};

verus! {

/// The move that is made after `events`.
pub open spec fn last_move(req: RouterRequest, events: Seq<Event>) -> Move
    decreases events.len(),
{
    if events.len() == 0 {
        first_move(req)
    } else {
        next_move(req, last_move(req, events.drop_last()).state.phase, events.last())
    }
}

/// Each of `events` is what the action before it brings.
pub open spec fn is_run(req: RouterRequest, events: Seq<Event>) -> bool
    decreases events.len(),
{
    events.len() > 0 ==> {
        &&& is_run(req, events.drop_last())
        &&& fits(last_move(req, events.drop_last()).state.phase, events.last())
    }
}

/// The start lock as the actions and events of a run leave it: an attempt takes
/// it or not, giving it back frees it, and so does the end of the request.
pub open spec fn lock_held(req: RouterRequest, events: Seq<Event>) -> bool
    decreases events.len(),
{
    if events.len() == 0 || last_move(req, events).state.phase is Finished {
        false
    } else {
        match last_move(req, events.drop_last()).action {
            ActionView::TryLock { .. } => events.last()->taken,
            ActionView::ReleaseLock { .. } => false,
            _ => lock_held(req, events.drop_last()),
        }
    }
}

/// How often the request has slept.
pub open spec fn sleeps(events: Seq<Event>) -> nat
    decreases events.len(),
{
    if events.len() == 0 {
        0
    } else {
        sleeps(events.drop_last()) + if events.last() is Awake {
            1nat
        } else {
            0nat
        }
    }
}

/// The waiting times that the events report include the time slept.
pub open spec fn is_timed(events: Seq<Event>) -> bool
    decreases events.len(),
{
    events.len() > 0 ==> {
        &&& is_timed(events.drop_last())
        &&& events.last() is Status ==> events.last()->Status_waited_ms >= POLL_INTERVAL_MS
            * sleeps(events.drop_last())
        &&& events.last() is Lock ==> events.last()->Lock_waited_ms >= POLL_INTERVAL_MS * sleeps(
            events.drop_last(),
        )
    }
}

/// How many events may still come before the request sleeps or is answered.
pub open spec fn steps_left(phase: PhaseView) -> nat {
    match phase {
        PhaseView::FindingRoute => 12,
        PhaseView::ReadingStatus => 11,
        PhaseView::Locking => 10,
        PhaseView::FindingHandler => 9,
        PhaseView::ReadingHealth => 8,
        PhaseView::Probing => 7,
        PhaseView::ReadingOrphanKind => 7,
        PhaseView::RecordingHealth(_) => 6,
        PhaseView::ReleasingOrphan => 6,
        PhaseView::ReadingUnhealthyKind => 5,
        PhaseView::ReadingConfigForStart => 5,
        PhaseView::AskingForHeader(_) => 5,
        PhaseView::CleaningUnhealthy(_) => 4,
        PhaseView::AskingForCache => 4,
        PhaseView::LockingForHeader(_) => 4,
        PhaseView::LockingForCache => 3,
        PhaseView::RegisteringForStart => 3,
        PhaseView::RegisteringForRestart => 3,
        PhaseView::ReadingConfigForRestart => 3,
        PhaseView::ReleasingHealthy => 2,
        PhaseView::Starting => 2,
        PhaseView::CleaningFailed(_) => 1,
        PhaseView::CleaningOrphan => 1,
        PhaseView::Sleeping => 1,
        PhaseView::Forwarding => 1,
        PhaseView::Finished => 0,
    }
}

/// `events` holds an event of which `p` is true.
pub open spec fn met(events: Seq<Event>, p: spec_fn(Event) -> bool) -> bool {
    exists|i: int| 0 <= i < events.len() && p(#[trigger] events[i])
}

proof fn lemma_met_step(events: Seq<Event>, p: spec_fn(Event) -> bool)
    requires
        events.len() > 0,
    ensures
        met(events, p) == (met(events.drop_last(), p) || p(events.last())),
{
    let shorter = events.drop_last();
    if met(events, p) {
        let i = choose|i: int| 0 <= i < events.len() && p(#[trigger] events[i]);
        if i < shorter.len() {
            assert(p(shorter[i]));
        }
    }
    if met(shorter, p) {
        let i = choose|i: int| 0 <= i < shorter.len() && p(#[trigger] shorter[i]);
        assert(p(events[i]));
    }
    if p(events.last()) {
        assert(p(events[events.len() - 1]));
    }
}

/// A request is over exactly where it has been answered, by the proxy or by
/// the service.
pub proof fn answered_exactly_at_the_end(req: RouterRequest, events: Seq<Event>)
    requires
        is_run(req, events),
    ensures
        last_move(req, events).state.phase is Finished <==> (last_move(req, events).action is Answer
            || last_move(req, events).action is Deliver),
{
}

/// The machine knows whether it holds the start lock.
pub proof fn lock_is_tracked(req: RouterRequest, events: Seq<Event>)
    requires
        is_run(req, events),
    ensures
        last_move(req, events).state.locked == lock_held(req, events),
    decreases events.len(),
{
    if events.len() > 0 {
        lock_is_tracked(req, events.drop_last());
        lemma_actions_and_phases(req, events.drop_last());
    }
}

/// Which action is taken in which phase, as far as it concerns the lock, and in
/// which phases the lock is held.
proof fn lemma_actions_and_phases(req: RouterRequest, events: Seq<Event>)
    requires
        is_run(req, events),
    ensures
        ({
            let m = last_move(req, events);
            &&& m.action is TryLock <==> (m.state.phase is Locking
                || m.state.phase is LockingForHeader || m.state.phase is LockingForCache)
            &&& m.action is ReleaseLock <==> (m.state.phase is ReleasingHealthy
                || m.state.phase is ReleasingOrphan)
            &&& m.state.phase is Starting ==> m.state.locked
            &&& m.state.phase is FindingHandler ==> m.state.locked
            &&& m.state.phase is ReadingHealth ==> m.state.locked
            &&& m.state.phase is Probing ==> m.state.locked
            &&& m.state.phase is RecordingHealth ==> m.state.locked
            &&& m.state.phase is ReadingUnhealthyKind ==> m.state.locked
            &&& m.state.phase is CleaningUnhealthy ==> m.state.locked
            &&& m.state.phase is RegisteringForRestart ==> m.state.locked
            &&& m.state.phase is RegisteringForStart ==> m.state.locked
            &&& m.state.phase is ReadingConfigForRestart ==> m.state.locked
            &&& m.state.phase is ReadingOrphanKind ==> m.state.locked
            &&& m.state.phase is CleaningOrphan ==> m.state.locked
            &&& m.state.phase is FindingRoute ==> !m.state.locked
            &&& m.state.phase is ReadingStatus ==> !m.state.locked
            &&& m.state.phase is Sleeping ==> !m.state.locked
            &&& m.state.phase is CleaningFailed ==> !m.state.locked
            &&& m.state.phase is Locking ==> !m.state.locked
            &&& m.state.phase is AskingForHeader ==> !m.state.locked
            &&& m.state.phase is LockingForHeader ==> !m.state.locked
            &&& m.state.phase is ReadingConfigForStart ==> !m.state.locked
            &&& m.state.phase is AskingForCache ==> !m.state.locked
            &&& m.state.phase is LockingForCache ==> !m.state.locked
            &&& m.state.phase is Finished ==> !m.state.locked
        }),
{
}

/// A service is only started while its start lock is held, so two requests
/// never start it at once.
pub proof fn starts_under_the_lock(req: RouterRequest, events: Seq<Event>)
    requires
        is_run(req, events),
        last_move(req, events).action is Start,
    ensures
        lock_held(req, events),
{
    lock_is_tracked(req, events);
}

/// A service that is known to be a one-shot is cleaned up, never restarted.
pub proof fn one_shot_is_never_restarted(req: RouterRequest, events: Seq<Event>)
    requires
        is_run(req, events),
        met(events, |e: Event| e == Event::Kind(Some(McpType::OneShot))),
    ensures
        ({
            let phase = last_move(req, events).state.phase;
            phase is CleaningUnhealthy || phase is CleaningOrphan || phase is Finished
        }),
        !(last_move(req, events).action is Start),
        last_move(req, events).state.phase is Finished ==> last_move(req, events).action
            == (ActionView::Answer { reply: ReplyView::OneShotEnded { mcp_id: req.id() } }),
{
    lemma_one_shot(req, events);
}

proof fn lemma_one_shot(req: RouterRequest, events: Seq<Event>)
    requires
        is_run(req, events),
        met(events, |e: Event| e == Event::Kind(Some(McpType::OneShot))),
    ensures
        ({
            let m = last_move(req, events);
            ||| m == to(
                PhaseView::CleaningUnhealthy(true),
                true,
                ActionView::CleanUp { mcp_id: req.id() },
            )
            ||| m == to(
                PhaseView::CleaningOrphan,
                true,
                ActionView::CleanUp { mcp_id: req.id() },
            )
            ||| m == answer(ReplyView::OneShotEnded { mcp_id: req.id() })
        }),
    decreases events.len(),
{
    let p = |e: Event| e == Event::Kind(Some(McpType::OneShot));
    lemma_met_step(events, p);
    if met(events.drop_last(), p) {
        lemma_one_shot(req, events.drop_last());
    }
}

/// Where no handler was found, a one-shot is not started from the
/// configuration that was registered last: a client has to ask for it.
pub proof fn one_shot_is_not_started_from_the_cache(req: RouterRequest, events: Seq<Event>)
    requires
        is_run(req, events),
        !met(events, |e: Event| e == Event::Handler(true)),
        met(events, |e: Event| e == Event::CachedConfig(Some(McpType::OneShot))),
    ensures
        last_move(req, events) == answer(ReplyView::OneShotNeedsRequest { mcp_id: req.id() }),
    decreases events.len(),
{
    let handler = |e: Event| e == Event::Handler(true);
    let config = |e: Event| e == Event::CachedConfig(Some(McpType::OneShot));
    lemma_met_step(events, handler);
    lemma_met_step(events, config);
    if met(events.drop_last(), config) {
        one_shot_is_not_started_from_the_cache(req, events.drop_last());
    } else {
        lemma_no_handler(req, events.drop_last());
    }
}

proof fn lemma_no_handler(req: RouterRequest, events: Seq<Event>)
    requires
        is_run(req, events),
        !met(events, |e: Event| e == Event::Handler(true)),
    ensures
        ({
            let phase = last_move(req, events).state.phase;
            &&& !(phase is ReadingHealth) && !(phase is Probing) && !(phase is RecordingHealth)
            &&& !(phase is ReleasingHealthy) && !(phase is ReadingUnhealthyKind)
            &&& !(phase is CleaningUnhealthy) && !(phase is RegisteringForRestart)
            &&& !(phase is ReadingConfigForRestart)
            &&& last_move(req, events).action != (ActionView::Forward { target: Target::Found })
        }),
    decreases events.len(),
{
    if events.len() > 0 {
        lemma_met_step(events, |e: Event| e == Event::Handler(true));
        lemma_no_handler(req, events.drop_last());
    }
}

/// A request goes to the route that was found for it only where the service
/// was found healthy.
pub proof fn forwards_to_healthy_services_only(req: RouterRequest, events: Seq<Event>)
    requires
        is_run(req, events),
        last_move(req, events).action == (ActionView::Forward { target: Target::Found }),
    ensures
        met(events, |e: Event| e == Event::Health(true) || e == Event::CachedHealth(Some(true))),
        !met(
            events,
            |e: Event| e == Event::Health(false) || e == Event::CachedHealth(Some(false)),
        ),
{
    lemma_health(req, events);
}

proof fn lemma_health(req: RouterRequest, events: Seq<Event>)
    requires
        is_run(req, events),
    ensures
        ({
            let m = last_move(req, events);
            let healthy = met(
                events,
                |e: Event| e == Event::Health(true) || e == Event::CachedHealth(Some(true)),
            );
            let unhealthy = met(
                events,
                |e: Event| e == Event::Health(false) || e == Event::CachedHealth(Some(false)),
            );
            &&& (m.state.phase is ReleasingHealthy || m.state.phase == PhaseView::RecordingHealth(
                true,
            ) || m.action == (ActionView::Forward { target: Target::Found })) ==> healthy
                && !unhealthy
            &&& (m.state.phase is FindingRoute || m.state.phase is ReadingStatus
                || m.state.phase is Sleeping || m.state.phase is Locking
                || m.state.phase is FindingHandler || m.state.phase is ReadingHealth
                || m.state.phase is Probing) ==> !healthy && !unhealthy
        }),
    decreases events.len(),
{
    if events.len() > 0 {
        lemma_met_step(
            events,
            |e: Event| e == Event::Health(true) || e == Event::CachedHealth(Some(true)),
        );
        lemma_met_step(
            events,
            |e: Event| e == Event::Health(false) || e == Event::CachedHealth(Some(false)),
        );
        lemma_health(req, events.drop_last());
    }
}

/// A request goes to a new service right after that service has started.
pub proof fn forwards_to_a_service_that_started(req: RouterRequest, events: Seq<Event>)
    requires
        is_run(req, events),
        last_move(req, events).action == (ActionView::Forward { target: Target::Started }),
    ensures
        events.len() > 0,
        events.last() == Event::Started(true),
{
}

/// A service that failed to start is cleaned up and not started again; the
/// answer names the reason.
pub proof fn failed_service_is_not_restarted(
    req: RouterRequest,
    events: Seq<Event>,
    reason: String,
    waited_ms: u64,
)
    requires
        is_run(req, events),
        events.contains(
            Event::Status { status: Some(ServiceStatus::Error(reason)), waited_ms },
        ),
    ensures
        last_move(req, events) == to(
            PhaseView::CleaningFailed(reason@),
            false,
            ActionView::CleanUp { mcp_id: req.id() },
        ) || last_move(req, events) == answer(
            ReplyView::StartFailed { mcp_id: req.id(), reason: reason@ },
        ),
    decreases events.len(),
{
    let failure = Event::Status { status: Some(ServiceStatus::Error(reason)), waited_ms };
    if events.last() != failure {
        let i = choose|i: int| 0 <= i < events.len() && events[i] == failure;
        assert(events.drop_last()[i] == failure);
        failed_service_is_not_restarted(req, events.drop_last(), reason, waited_ms);
    }
}

/// A request sleeps only while the service is starting and the wait is not
/// over, and never with the lock in hand.
pub proof fn sleeps_only_before_the_limit(req: RouterRequest, events: Seq<Event>)
    requires
        is_run(req, events),
        last_move(req, events).action is Sleep,
    ensures
        last_move(req, events).action == (ActionView::Sleep { ms: POLL_INTERVAL_MS }),
        !lock_held(req, events),
        events.len() > 0,
        match events.last() {
            Event::Status { status, waited_ms } => status == Some(ServiceStatus::Pending)
                && waited_ms < WAIT_LIMIT_MS,
            Event::Lock { taken, waited_ms } => !taken && waited_ms < WAIT_LIMIT_MS,
            _ => false,
        },
{
    lock_is_tracked(req, events);
}

/// A request sleeps at most a hundred times: the wait for a service that is
/// starting is bounded.
pub proof fn wait_is_bounded(req: RouterRequest, events: Seq<Event>)
    requires
        is_run(req, events),
        is_timed(events),
    ensures
        sleeps(events) <= WAIT_LIMIT_MS / POLL_INTERVAL_MS,
        last_move(req, events).state.phase is Sleeping ==> sleeps(events) < WAIT_LIMIT_MS
            / POLL_INTERVAL_MS,
    decreases events.len(),
{
    if events.len() > 0 {
        wait_is_bounded(req, events.drop_last());
    }
}

/// Every request is answered after boundedly many steps.
pub proof fn every_run_is_bounded(req: RouterRequest, events: Seq<Event>)
    requires
        is_run(req, events),
        is_timed(events),
    ensures
        events.len() <= 12 * (1 + WAIT_LIMIT_MS / POLL_INTERVAL_MS),
{
    lemma_run_length(req, events);
    wait_is_bounded(req, events);
}

proof fn lemma_run_length(req: RouterRequest, events: Seq<Event>)
    requires
        is_run(req, events),
    ensures
        events.len() + steps_left(last_move(req, events).state.phase) <= 12 * (1 + sleeps(events)),
    decreases events.len(),
{
    if events.len() > 0 {
        lemma_run_length(req, events.drop_last());
    }
}

/// How often a service has been started.
pub open spec fn starts(req: RouterRequest, events: Seq<Event>) -> nat
    decreases events.len(),
{
    (if events.len() == 0 {
        0nat
    } else {
        starts(req, events.drop_last())
    }) + if last_move(req, events).action is Start {
        1nat
    } else {
        0nat
    }
}

/// Something has been cleaned up.
pub open spec fn cleaned_up(req: RouterRequest, events: Seq<Event>) -> bool
    decreases events.len(),
{
    last_move(req, events).action is CleanUp || (events.len() > 0 && cleaned_up(
        req,
        events.drop_last(),
    ))
}

/// A request starts at most one service, once: one that fails to start is not
/// tried again.
pub proof fn starts_at_most_once(req: RouterRequest, events: Seq<Event>)
    requires
        is_run(req, events),
    ensures
        starts(req, events) <= 1,
        starts(req, events) > 0 ==> ({
            let phase = last_move(req, events).state.phase;
            phase is Starting || phase is Forwarding || phase is Finished
        }),
    decreases events.len(),
{
    if events.len() > 0 {
        starts_at_most_once(req, events.drop_last());
    }
}

/// An unhealthy service is cleaned up before it is started again.
pub proof fn unhealthy_service_is_cleaned_up_first(req: RouterRequest, events: Seq<Event>)
    requires
        is_run(req, events),
        met(
            events,
            |e: Event| e == Event::Health(false) || e == Event::CachedHealth(Some(false)),
        ),
        last_move(req, events).action is Start,
    ensures
        cleaned_up(req, events),
{
    lemma_cleaned_up(req, events);
}

proof fn lemma_cleaned_up(req: RouterRequest, events: Seq<Event>)
    requires
        is_run(req, events),
        met(
            events,
            |e: Event| e == Event::Health(false) || e == Event::CachedHealth(Some(false)),
        ),
    ensures
        cleaned_up(req, events) || ({
            let phase = last_move(req, events).state.phase;
            phase == PhaseView::RecordingHealth(false) || phase is ReadingUnhealthyKind
        }),
    decreases events.len(),
{
    let p = |e: Event| e == Event::Health(false) || e == Event::CachedHealth(Some(false));
    lemma_met_step(events, p);
    if met(events.drop_last(), p) {
        lemma_cleaned_up(req, events.drop_last());
    }
}

} // verus!
