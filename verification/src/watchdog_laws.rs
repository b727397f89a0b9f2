//! What holds of every run of a watchdog.

use vstd::arithmetic::power2::{lemma2_to64, lemma_pow2_pos, lemma_pow2_unfold, pow2};
use vstd::prelude::*;

use crate::backoff::least;
use crate::text::{decimal, frames};
use crate::watchdog::{
    backoff_line, is_last, watchdog_begin, watchdog_step, DiagnosticView, FailureView, NoticeView,
    PhaseView, WatchAction, WatchEvent, WatchEventView, WatchStep, WatchStepView, Watchdog,
    WatchdogOptions, WatchdogView, MAX_BACKOFF_SECS,
};

verus! {

/// What a watchdog is after some events, and its last step.
pub open spec fn run(options: WatchdogOptions, events: Seq<WatchEventView>) -> (
    WatchdogView,
    WatchStepView,
)
    decreases events.len(),
{
    if events.len() == 0 {
        (
            WatchdogView::initial(options),
            WatchStepView { said: Seq::empty(), action: WatchAction::Monitor },
        )
    } else {
        run(options, events.drop_last()).0.next(events.last())
    }
}

/// The watchdog has waited for each of the events.
pub open spec fn is_run(options: WatchdogOptions, events: Seq<WatchEventView>) -> bool
    decreases events.len(),
{
    events.len() == 0 || (is_run(options, events.drop_last()) && run(
        options,
        events.drop_last(),
    ).0.awaits(events.last()))
}

/// The last action of a watchdog after some events.
pub open spec fn action(options: WatchdogOptions, events: Seq<WatchEventView>) -> WatchAction {
    run(options, events).1.action
}

/// How the attempts have ended: whether they have connected.
pub open spec fn outcomes(events: Seq<WatchEventView>) -> Seq<bool>
    decreases events.len(),
{
    if events.len() == 0 {
        Seq::empty()
    } else {
        let before = outcomes(events.drop_last());
        match events.last() {
            WatchEventView::Connected => before.push(true),
            WatchEventView::Failed(_) => before.push(false),
            _ => before,
        }
    }
}

/// The handler has a backend: at first, and from when it is given one until it
/// is told that it has none.
pub open spec fn has_backend(events: Seq<WatchEventView>) -> bool
    decreases events.len(),
{
    if events.len() == 0 {
        true
    } else {
        match events.last() {
            WatchEventView::Disconnected { .. } => false,
            WatchEventView::Installed => true,
            _ => has_backend(events.drop_last()),
        }
    }
}

/// How many attempts have been begun.
pub open spec fn attempts_begun(options: WatchdogOptions, events: Seq<WatchEventView>) -> nat
    decreases events.len(),
{
    if events.len() == 0 {
        0
    } else {
        attempts_begun(options, events.drop_last()) + if action(options, events) is Connect {
            1nat
        } else {
            0nat
        }
    }
}

/// How many attempts have failed since one last connected.
pub open spec fn failures_in_a_row(outcomes: Seq<bool>) -> nat
    decreases outcomes.len(),
{
    if outcomes.len() == 0 || outcomes.last() {
        0
    } else {
        failures_in_a_row(outcomes.drop_last()) + 1
    }
}

/// The wait after the last of some attempts, in seconds: it doubles with every
/// failure in a row, up to the limit. Where there has been no connection since
/// the first was lost, the wait after the first failure is a second; a connection
/// that was made again and lost counts like that failure.
pub open spec fn wait_after(outcomes: Seq<bool>) -> nat {
    let failures = failures_in_a_row(outcomes);
    let doublings = if failures < outcomes.len() {
        failures
    } else {
        (failures - 1) as nat
    };
    least(pow2(doublings), MAX_BACKOFF_SECS as nat)
}

/// None of the attempts was the one at whose failure the watchdog gives up.
pub open spec fn keeps_trying(outcomes: Seq<bool>, max_retries: u32) -> bool {
    forall|i: int|
        0 <= i < outcomes.len() && !#[trigger] outcomes[i] ==> !is_last(
            (i + 1) as nat,
            max_retries,
        )
}

/// The event is what comes of the action.
pub open spec fn answers(event: WatchEventView, action: WatchAction) -> bool {
    match action {
        WatchAction::Monitor => event is Lost,
        WatchAction::MarkDisconnected => event is Disconnected,
        WatchAction::Connect => event is Connected || event is Failed,
        WatchAction::Install => event is Installed,
        WatchAction::Sleep { .. } => event is Waited,
        WatchAction::Stop => false,
    }
}

/// How a run and its last step hang together with what has happened.
spec fn tracks(
    state: WatchdogView,
    step: WatchStepView,
    options: WatchdogOptions,
    outcomes: Seq<bool>,
    backend: bool,
) -> bool {
    let n = outcomes.len();
    &&& state.options == options
    &&& 1 <= state.backoff_secs <= MAX_BACKOFF_SECS
    &&& state.attempt == n + if state.phase is Connecting {
        1int
    } else {
        0int
    }
    &&& options.quiet ==> forall|i: int| 0 <= i < step.said.len() ==> #[trigger] step.said[i] is Report
    &&& state.phase !is Stopped ==> keeps_trying(outcomes, options.max_retries)
    &&& match state.phase {
        PhaseView::Monitoring { first } => {
            &&& step.action is Monitor
            &&& backend
            &&& state.backoff_secs == 1
            &&& first == (n == 0)
            &&& n > 0 ==> outcomes.last()
        },
        PhaseView::Marking { first, .. } => {
            &&& step.action is MarkDisconnected
            &&& backend
            &&& state.backoff_secs == 1
            &&& first == (n == 0)
            &&& n > 0 ==> outcomes.last()
        },
        PhaseView::Connecting => {
            &&& step.action is Connect
            &&& !backend
            &&& state.backoff_secs == if n == 0 {
                1
            } else {
                least(2 * wait_after(outcomes), MAX_BACKOFF_SECS as nat)
            }
        },
        PhaseView::Installing => {
            &&& step.action is Install
            &&& !backend
            &&& n > 0 && outcomes.last()
        },
        PhaseView::Waiting => {
            &&& step.action is Sleep
            &&& !backend
            &&& n > 0
            &&& step.action->secs == wait_after(outcomes)
            &&& state.backoff_secs == least(2 * wait_after(outcomes), MAX_BACKOFF_SECS as nat)
        },
        PhaseView::Stopped => {
            &&& step.action is Stop
            &&& !backend
            &&& n > 0 && !outcomes.last() && is_last(n, options.max_retries)
        },
    }
}

proof fn lemma_failures_bound(outcomes: Seq<bool>)
    ensures
        failures_in_a_row(outcomes) <= outcomes.len(),
    decreases outcomes.len(),
{
    if outcomes.len() > 0 {
        lemma_failures_bound(outcomes.drop_last());
    }
}

/// The wait after one more attempt.
proof fn lemma_wait(before: Seq<bool>)
    ensures
        wait_after(before.push(true)) == 1,
        wait_after(before.push(false)) == if before.len() == 0 {
            1
        } else {
            least(2 * wait_after(before), MAX_BACKOFF_SECS as nat)
        },
{
    lemma2_to64();
    lemma_failures_bound(before);
    assert(before.push(true).drop_last() =~= before);
    assert(before.push(false).drop_last() =~= before);
    assert(failures_in_a_row(before.push(true)) == 0);
    assert(failures_in_a_row(before.push(false)) == failures_in_a_row(before) + 1);
    let failures = failures_in_a_row(before);
    lemma_pow2_unfold(failures + 1);
    if failures > 0 {
        lemma_pow2_unfold(failures);
    }
}

proof fn lemma_tracks(options: WatchdogOptions, events: Seq<WatchEventView>)
    requires
        is_run(options, events),
    ensures
        ({
            let (state, step) = run(options, events);
            tracks(state, step, options, outcomes(events), has_backend(events))
        }),
        attempts_begun(options, events) == run(options, events).0.attempt,
    decreases events.len(),
{
    if events.len() > 0 {
        let before = events.drop_last();
        lemma_tracks(options, before);
        let ended = outcomes(before);
        let event = events.last();
        lemma_wait(ended);
        if event is Connected {
            assert(keeps_trying(ended.push(true), options.max_retries)) by {
                assert forall|i: int|
                    0 <= i < ended.push(true).len() && !#[trigger] ended.push(
                        true,
                    )[i] implies !is_last((i + 1) as nat, options.max_retries) by {
                    assert(!ended[i]);
                }
            }
        }
        if event is Failed && !is_last(ended.len() + 1, options.max_retries) {
            assert(keeps_trying(ended.push(false), options.max_retries)) by {
                assert forall|i: int|
                    0 <= i < ended.push(false).len() && !#[trigger] ended.push(
                        false,
                    )[i] implies !is_last((i + 1) as nat, options.max_retries) by {
                    if i < ended.len() {
                        assert(!ended[i]);
                    }
                }
            }
        }
        if event is Disconnected {
            lemma_failures_bound(ended);
            if ended.len() > 0 {
                assert(ended =~= ended.drop_last().push(true));
                lemma_wait(ended.drop_last());
            }
        }
    }
}

/// What the watchdog waits for next is what comes of its last action, and
/// nothing else.
pub proof fn every_action_is_answered(
    options: WatchdogOptions,
    events: Seq<WatchEventView>,
    event: WatchEventView,
)
    requires
        is_run(options, events),
    ensures
        run(options, events).0.awaits(event) <==> answers(event, action(options, events)),
{
    lemma_tracks(options, events);
}

/// An attempt is made, waited for or given up only while the handler has been
/// told that it has no backend; a connection is watched only while the handler
/// has it.
pub proof fn attempts_are_made_without_a_backend(
    options: WatchdogOptions,
    events: Seq<WatchEventView>,
)
    requires
        is_run(options, events),
    ensures
        action(options, events) is Connect ==> !has_backend(events),
        action(options, events) is Sleep ==> !has_backend(events),
        action(options, events) is Stop ==> !has_backend(events),
        action(options, events) is Install ==> !has_backend(events),
        action(options, events) is Monitor ==> has_backend(events),
{
    lemma_tracks(options, events);
}

/// The watchdog counts the attempts that it begins, and begins one for each
/// outcome and at most one more.
pub proof fn attempts_are_counted(options: WatchdogOptions, events: Seq<WatchEventView>)
    requires
        is_run(options, events),
    ensures
        run(options, events).0.attempt == attempts_begun(options, events),
        attempts_begun(options, events) == outcomes(events).len() + if action(
            options,
            events,
        ) is Connect {
            1int
        } else {
            0int
        },
{
    lemma_tracks(options, events);
}

/// The wait doubles with every failure in a row, up to the limit, and is short
/// again once a connection has been made.
pub proof fn waits_double_with_failures(options: WatchdogOptions, events: Seq<WatchEventView>)
    requires
        is_run(options, events),
        action(options, events) is Sleep,
    ensures
        action(options, events)->secs == wait_after(outcomes(events)),
        outcomes(events).last() ==> action(options, events)->secs == 1,
{
    lemma_tracks(options, events);
    let ended = outcomes(events);
    if ended.last() {
        assert(ended =~= ended.drop_last().push(true));
        lemma_wait(ended.drop_last());
    }
}

/// While every attempt fails, the watchdog waits one second after the first, two
/// after the second, and so on up to the limit.
pub proof fn failing_watchdog_doubles_its_wait(
    options: WatchdogOptions,
    events: Seq<WatchEventView>,
)
    requires
        is_run(options, events),
        action(options, events) is Sleep,
        forall|i: int| 0 <= i < outcomes(events).len() ==> !#[trigger] outcomes(events)[i],
    ensures
        action(options, events)->secs == least(
            pow2((attempts_begun(options, events) - 1) as nat),
            MAX_BACKOFF_SECS as nat,
        ),
{
    lemma_tracks(options, events);
    lemma_all_failed(outcomes(events));
}

proof fn lemma_all_failed(outcomes: Seq<bool>)
    requires
        forall|i: int| 0 <= i < outcomes.len() ==> !#[trigger] outcomes[i],
    ensures
        failures_in_a_row(outcomes) == outcomes.len(),
    decreases outcomes.len(),
{
    if outcomes.len() > 0 {
        let before = outcomes.drop_last();
        assert forall|i: int| 0 <= i < before.len() implies !#[trigger] before[i] by {
            assert(!outcomes[i]);
        }
        lemma_all_failed(before);
    }
}

/// Every wait is between one second and the limit.
pub proof fn waits_stay_in_range(options: WatchdogOptions, events: Seq<WatchEventView>)
    requires
        is_run(options, events),
        action(options, events) is Sleep,
    ensures
        1 <= action(options, events)->secs <= MAX_BACKOFF_SECS,
{
    lemma_tracks(options, events);
    let failures = failures_in_a_row(outcomes(events));
    lemma_failures_bound(outcomes(events));
    lemma_pow2_pos(failures);
    if failures > 0 {
        lemma_pow2_pos((failures - 1) as nat);
    }
}

/// The watchdog gives up exactly at the first attempt that fails once as many as
/// the limit have been made.
pub proof fn watchdog_gives_up_at_the_limit(
    options: WatchdogOptions,
    events: Seq<WatchEventView>,
)
    requires
        is_run(options, events),
    ensures
        action(options, events) is Stop <==> !keeps_trying(outcomes(events), options.max_retries),
{
    lemma_tracks(options, events);
    let ended = outcomes(events);
    if action(options, events) is Stop {
        assert(!ended[ended.len() - 1]);
    }
}

/// Where every attempt fails, there are as many as the limit allows, and the
/// watchdog gives up after the last of them, while the handler has no backend.
pub proof fn failing_watchdog_tries_as_often_as_allowed(
    options: WatchdogOptions,
    events: Seq<WatchEventView>,
)
    requires
        is_run(options, events),
        options.max_retries > 0,
        forall|i: int| 0 <= i < outcomes(events).len() ==> !#[trigger] outcomes(events)[i],
    ensures
        attempts_begun(options, events) <= options.max_retries,
        action(options, events) is Stop <==> outcomes(events).len() == options.max_retries,
        action(options, events) is Stop ==> attempts_begun(options, events) == options.max_retries
            && !has_backend(events),
    decreases events.len(),
{
    lemma_tracks(options, events);
    let ended = outcomes(events);
    if events.len() > 0 {
        let before = events.drop_last();
        assert forall|i: int| 0 <= i < outcomes(before).len() implies !#[trigger] outcomes(
            before,
        )[i] by {
            assert(!ended[i]);
        }
        lemma_tracks(options, before);
        failing_watchdog_tries_as_often_as_allowed(options, before);
        if outcomes(before).len() > 0 {
            assert(!outcomes(before)[outcomes(before).len() - 1]);
        }
    }
    if ended.len() > 0 {
        assert(!ended[ended.len() - 1]);
    }
}

/// Without a limit the watchdog never gives up.
pub proof fn unlimited_watchdog_never_gives_up(
    options: WatchdogOptions,
    events: Seq<WatchEventView>,
)
    requires
        is_run(options, events),
        options.max_retries == 0,
    ensures
        action(options, events) !is Stop,
{
    lemma_tracks(options, events);
}

/// A quiet watchdog shows no line; it reports all the same.
pub proof fn quiet_watchdog_shows_no_line(
    options: WatchdogOptions,
    events: Seq<WatchEventView>,
    i: int,
)
    requires
        is_run(options, events),
        options.quiet,
        0 <= i < run(options, events).1.said.len(),
    ensures
        run(options, events).1.said[i] is Report,
{
    lemma_tracks(options, events);
}

/// What the user is told at the last step of a run.
pub open spec fn told(options: WatchdogOptions, events: Seq<WatchEventView>) -> Seq<NoticeView> {
    run(options, events).1.said
}

/// A notice is a line made of these three parts.
pub open spec fn is_line(
    notice: NoticeView,
    before: Seq<char>,
    middle: Seq<char>,
    after: Seq<char>,
) -> bool {
    notice is Line && frames(notice->Line_0, before, middle, after)
}

/// A notice is the line on an attempt with this number.
pub open spec fn announces_attempt(notice: NoticeView, number: nat) -> bool {
    is_line(notice, "🔗 Reconnecting (attempt #"@, decimal(number), ")..."@)
}

proof fn lemma_step(options: WatchdogOptions, events: Seq<WatchEventView>, event: WatchEventView)
    requires
        is_run(options, events.push(event)),
    ensures
        is_run(options, events),
        run(options, events).0.awaits(event),
        run(options, events.push(event)) == run(options, events).0.next(event),
        ({
            let (state, step) = run(options, events);
            tracks(state, step, options, outcomes(events), has_backend(events))
        }),
        attempts_begun(options, events) == run(options, events).0.attempt,
{
    assert(events.push(event).drop_last() =~= events);
    lemma_tracks(options, events);
}

/// A loss is noted at once, and nothing is said before the handler knows of it.
pub proof fn loss_is_noted_at_once(
    options: WatchdogOptions,
    events: Seq<WatchEventView>,
    reason: Seq<char>,
)
    requires
        is_run(options, events.push(WatchEventView::Lost { reason })),
    ensures
        action(options, events.push(WatchEventView::Lost { reason }))
            == WatchAction::MarkDisconnected,
        told(options, events.push(WatchEventView::Lost { reason })).len() == 0,
{
    lemma_step(options, events, WatchEventView::Lost { reason });
}

/// A loss is reported with its whole reason and with the time that the connection
/// lived, also by a quiet watchdog; another one shows it on a line, too. The
/// connection that the watchdog was given is made again at once. One that it has
/// made itself is made again after a second.
pub proof fn loss_is_reported_in_full(
    options: WatchdogOptions,
    events: Seq<WatchEventView>,
    reason: Seq<char>,
    alive_secs: u64,
)
    requires
        is_run(
            options,
            events.push(WatchEventView::Lost { reason }).push(
                WatchEventView::Disconnected { alive_secs },
            ),
        ),
    ensures
        ({
            let after = events.push(WatchEventView::Lost { reason }).push(
                WatchEventView::Disconnected { alive_secs },
            );
            let said = told(options, after);
            let first = outcomes(events).len() == 0;
            let lines = if options.quiet {
                0int
            } else {
                1int
            };
            &&& action(options, after) == if first {
                WatchAction::Connect
            } else {
                WatchAction::Sleep { secs: 1 }
            }
            &&& said.len() == 1 + lines + if first {
                lines
            } else {
                0
            }
            &&& said[lines] == NoticeView::Report(
                DiagnosticView { alive_secs, reason, error_kind: None },
            )
            &&& !options.quiet ==> is_line(
                said[0],
                "⚠️ [EVENT_DISCONNECTED] Connection disconnected: "@,
                reason,
                Seq::empty(),
            )
            &&& !options.quiet && first ==> announces_attempt(said[2], 1)
        }),
{
    let lost = events.push(WatchEventView::Lost { reason });
    lemma_step(options, lost, WatchEventView::Disconnected { alive_secs });
    lemma_step(options, events, WatchEventView::Lost { reason });
}

/// Once a wait is over, the next attempt is made and announced under its number.
pub proof fn attempt_follows_the_wait(options: WatchdogOptions, events: Seq<WatchEventView>)
    requires
        is_run(options, events.push(WatchEventView::Waited)),
    ensures
        ({
            let after = events.push(WatchEventView::Waited);
            &&& action(options, after) == WatchAction::Connect
            &&& options.quiet ==> told(options, after).len() == 0
            &&& !options.quiet ==> told(options, after).len() == 1 && announces_attempt(
                told(options, after)[0],
                attempts_begun(options, events) + 1,
            )
        }),
{
    lemma_step(options, events, WatchEventView::Waited);
}

/// A connection that was made is given to the handler, and watched once the
/// handler has it; that is when the user is told.
pub proof fn new_connection_is_installed_and_watched(
    options: WatchdogOptions,
    events: Seq<WatchEventView>,
)
    ensures
        ({
            let made = events.push(WatchEventView::Connected);
            let installed = events.push(WatchEventView::Installed);
            &&& is_run(options, made) ==> action(options, made) == WatchAction::Install && told(
                options,
                made,
            ).len() == 0
            &&& is_run(options, installed) ==> action(options, installed)
                == WatchAction::Monitor && told(options, installed) == if options.quiet {
                Seq::empty()
            } else {
                seq![
                    NoticeView::Line(
                        "✅ [EVENT_RECONNECTED] Reconnected, proxy service resumed"@,
                    ),
                ]
            }
        }),
{
    if is_run(options, events.push(WatchEventView::Connected)) {
        lemma_step(options, events, WatchEventView::Connected);
    }
    if is_run(options, events.push(WatchEventView::Installed)) {
        lemma_step(options, events, WatchEventView::Installed);
        assert(told(options, events.push(WatchEventView::Installed)) =~= if options.quiet {
            Seq::empty()
        } else {
            seq![
                NoticeView::Line("✅ [EVENT_RECONNECTED] Reconnected, proxy service resumed"@),
            ]
        });
    }
}

/// An attempt that fails is the last where there is a limit and as many attempts
/// have been made. The error is then told in full, and its kind is reported, also
/// by a quiet watchdog.
pub proof fn failure_at_the_limit_is_final(
    options: WatchdogOptions,
    events: Seq<WatchEventView>,
    failure: FailureView,
)
    requires
        is_run(options, events.push(WatchEventView::Failed(failure))),
    ensures
        ({
            let after = events.push(WatchEventView::Failed(failure));
            let said = told(options, after);
            let last = options.max_retries > 0 && attempts_begun(options, events)
                >= options.max_retries;
            &&& last ==> action(options, after) == WatchAction::Stop
            &&& !last ==> action(options, after) is Sleep
            &&& last ==> said.len() == if options.quiet {
                1int
            } else {
                4int
            }
            &&& last ==> said.last() == NoticeView::Report(
                DiagnosticView {
                    alive_secs: 0,
                    reason: "Connection failed: max retries reached"@,
                    error_kind: Some(failure.kind),
                },
            )
            &&& last && !options.quiet ==> {
                &&& is_line(
                    said[0],
                    "❌ Connection failed, max retries reached ("@,
                    decimal(options.max_retries as nat),
                    ")"@,
                )
                &&& is_line(said[1], "   Error type: "@, failure.kind, Seq::empty())
                &&& is_line(said[2], "   Error detail: "@, failure.detail, Seq::empty())
            }
        }),
{
    lemma_step(options, events, WatchEventView::Failed(failure));
}

/// An attempt that fails and is not the last is followed by a wait. The user is
/// told the kind and the summary of the error, the wait, and the number of the
/// attempt with the limit where there is one; who wants to see more is told the
/// whole error.
pub proof fn failure_before_the_limit_is_told(
    options: WatchdogOptions,
    events: Seq<WatchEventView>,
    failure: FailureView,
)
    requires
        is_run(options, events.push(WatchEventView::Failed(failure))),
        options.max_retries == 0 || attempts_begun(options, events) < options.max_retries,
    ensures
        ({
            let after = events.push(WatchEventView::Failed(failure));
            let said = told(options, after);
            let number = decimal(attempts_begun(options, events));
            &&& action(options, after) is Sleep
            &&& said.len() == if options.quiet {
                0int
            } else if options.verbose {
                2int
            } else {
                1int
            }
            &&& !options.quiet ==> is_line(
                said[0],
                "⚠️ [EVENT_RETRY_BACKOFF] Connection failed ["@,
                failure.kind,
                "]: "@ + failure.summary + "; retrying in "@ + decimal(
                    action(options, after)->secs as nat,
                ) + if options.max_retries == 0 {
                    "s (attempt #"@ + number + ")..."@
                } else {
                    "s ("@ + number + "/"@ + decimal(options.max_retries as nat) + ")..."@
                },
            )
            &&& !options.quiet && options.verbose ==> is_line(
                said[1],
                "   Full error: "@,
                failure.detail,
                Seq::empty(),
            )
        }),
{
    lemma_step(options, events, WatchEventView::Failed(failure));
    let state = run(options, events).0;
    let line = backoff_line(failure, options.max_retries, state.attempt, state.backoff_secs);
    let wait = decimal(state.backoff_secs);
    let tail = if options.max_retries == 0 {
        "s (attempt #"@ + decimal(state.attempt) + ")..."@
    } else {
        "s ("@ + decimal(state.attempt) + "/"@ + decimal(options.max_retries as nat) + ")..."@
    };
    assert(line =~= "⚠️ [EVENT_RETRY_BACKOFF] Connection failed ["@ + failure.kind + ("]: "@
        + failure.summary + "; retrying in "@ + wait + tail));
}

/// No wait is longer than thirty seconds, and each failure in a row doubles it
/// until it is.
pub proof fn waits_double_up_to_thirty_seconds(
    options: WatchdogOptions,
    events: Seq<WatchEventView>,
    failure: FailureView,
)
    requires
        is_run(options, events.push(WatchEventView::Waited).push(WatchEventView::Failed(failure))),
        action(
            options,
            events.push(WatchEventView::Waited).push(WatchEventView::Failed(failure)),
        ) is Sleep,
    ensures
        ({
            let before = action(options, events)->secs;
            let next = action(
                options,
                events.push(WatchEventView::Waited).push(WatchEventView::Failed(failure)),
            )->secs;
            &&& action(options, events) is Sleep
            &&& 1 <= before <= 30
            &&& 2 * before <= 30 ==> next == 2 * before
            &&& 2 * before > 30 ==> next == 30
        }),
{
    let waited = events.push(WatchEventView::Waited);
    lemma_step(options, waited, WatchEventView::Failed(failure));
    lemma_step(options, events, WatchEventView::Waited);
    waits_stay_in_range(options, events);
}

/// The watchdog makes the steps of a run: it begins by watching, and each event
/// makes of it what the run says. It takes exactly the events that the run goes
/// on with.
pub proof fn watchdog_makes_the_steps_of_a_run(
    options: WatchdogOptions,
    events: Seq<WatchEventView>,
    state: Watchdog,
    event: &WatchEvent,
    first: (Watchdog, WatchStep),
    next: (Watchdog, WatchStep),
    taken: bool,
)
    requires
        is_run(options, events),
        state@ == run(options, events).0,
        call_ensures(watchdog_begin, (options,), first),
        call_ensures(Watchdog::expects, (&state, event), taken),
        call_ensures(watchdog_step, (state, event), next),
    ensures
        (first.0@, first.1@) == run(options, Seq::empty()),
        taken <==> is_run(options, events.push(event@)),
        taken ==> (next.0@, next.1@) == run(options, events.push(event@)),
{
    assert(events.push(event@).drop_last() =~= events);
    assert(run(options, Seq::empty()).1.said =~= Seq::empty());
}

/// In every run the watchdog can make a step on each event that it waits for, as
/// long as its attempts can be counted.
pub proof fn watchdog_never_gets_stuck(
    options: WatchdogOptions,
    events: Seq<WatchEventView>,
    state: Watchdog,
    event: &WatchEvent,
)
    requires
        is_run(options, events.push(event@)),
        state@ == run(options, events).0,
        attempts_begun(options, events) < u32::MAX,
    ensures
        call_requires(watchdog_step, (state, event)),
{
    lemma_step(options, events, event@);
}

} // verus!
