use mcp_proxy::watchdog::{
    watchdog_begin, watchdog_step, Failure, Notice, WatchAction, WatchEvent, WatchStep, Watchdog,
    WatchdogOptions,
};

fn options(max_retries: u32, verbose: bool, quiet: bool) -> WatchdogOptions {
    WatchdogOptions {
        max_retries,
        verbose,
        quiet,
    }
}

fn lost(reason: &str) -> WatchEvent {
    WatchEvent::Lost {
        reason: reason.into(),
    }
}

fn failed() -> WatchEvent {
    WatchEvent::Failed(Failure {
        kind: "timeout".into(),
        summary: "too slow".into(),
        detail: "operation timed out after a while".into(),
    })
}

fn step(dog: Watchdog, event: WatchEvent) -> (Watchdog, WatchStep) {
    assert!(dog.expects(&event), "not expected: {:?}", event);
    watchdog_step(dog, &event)
}

fn shown(step: &WatchStep) -> Vec<String> {
    step.said
        .iter()
        .map(|notice| match notice {
            Notice::Line(line) => line.clone(),
            Notice::Report(report) => format!(
                "report: {}s, {}, {:?}",
                report.alive_secs, report.reason, report.error_kind
            ),
        })
        .collect()
}

#[test]
fn lost_connection_is_made_again() {
    let (dog, begun) = watchdog_begin(options(0, false, false));
    assert_eq!(begun.action, WatchAction::Monitor);
    assert!(begun.said.is_empty());
    let (dog, marking) = step(dog, lost("ping timeout"));
    assert_eq!(marking.action, WatchAction::MarkDisconnected);
    assert!(marking.said.is_empty());
    let (dog, connecting) = step(dog, WatchEvent::Disconnected { alive_secs: 12 });
    assert_eq!(connecting.action, WatchAction::Connect);
    assert_eq!(
        shown(&connecting),
        vec![
            "⚠️ [EVENT_DISCONNECTED] Connection disconnected: ping timeout",
            "report: 12s, ping timeout, None",
            "🔗 Reconnecting (attempt #1)...",
        ]
    );
    let (dog, installing) = step(dog, WatchEvent::Connected);
    assert_eq!(installing.action, WatchAction::Install);
    assert!(installing.said.is_empty());
    let (dog, watching) = step(dog, WatchEvent::Installed);
    assert_eq!(watching.action, WatchAction::Monitor);
    assert_eq!(
        shown(&watching),
        vec!["✅ [EVENT_RECONNECTED] Reconnected, proxy service resumed"]
    );
    let (dog, _) = step(dog, lost("closed"));
    let (dog, waiting) = step(dog, WatchEvent::Disconnected { alive_secs: 3 });
    assert_eq!(waiting.action, WatchAction::Sleep { secs: 1 });
    assert_eq!(
        shown(&waiting),
        vec![
            "⚠️ [EVENT_DISCONNECTED] Connection disconnected: closed",
            "report: 3s, closed, None",
        ]
    );
    let (dog, again) = step(dog, WatchEvent::Waited);
    assert_eq!(again.action, WatchAction::Connect);
    assert_eq!(shown(&again), vec!["🔗 Reconnecting (attempt #2)..."]);
    assert_eq!(dog.attempts(), 2);
}

#[test]
fn watchdog_waits_longer_and_longer() {
    let (dog, _) = watchdog_begin(options(0, false, false));
    let (dog, _) = step(dog, lost("gone"));
    let (mut dog, _) = step(dog, WatchEvent::Disconnected { alive_secs: 0 });
    let mut waits = Vec::new();
    for n in 1..8 {
        assert_eq!(dog.attempts(), n);
        let (waiting, slept) = step(dog, failed());
        if n == 1 {
            assert_eq!(
                shown(&slept),
                vec![
                    "⚠️ [EVENT_RETRY_BACKOFF] Connection failed [timeout]: too slow; \
                     retrying in 1s (attempt #1)..."
                ]
            );
        }
        match slept.action {
            WatchAction::Sleep { secs } => waits.push(secs),
            other => panic!("{:?}", other),
        }
        let (next, connecting) = step(waiting, WatchEvent::Waited);
        assert_eq!(connecting.action, WatchAction::Connect);
        dog = next;
    }
    assert_eq!(waits, vec![1, 2, 4, 8, 16, 30, 30]);
    // A connection makes the wait short again.
    let (dog, _) = step(dog, WatchEvent::Connected);
    let (dog, _) = step(dog, WatchEvent::Installed);
    let (dog, _) = step(dog, lost("gone"));
    let (dog, slept) = step(dog, WatchEvent::Disconnected { alive_secs: 0 });
    assert_eq!(slept.action, WatchAction::Sleep { secs: 1 });
    let (dog, _) = step(dog, WatchEvent::Waited);
    let (_, slept) = step(dog, failed());
    assert_eq!(slept.action, WatchAction::Sleep { secs: 2 });
}

#[test]
fn watchdog_gives_up_at_the_limit() {
    let (dog, _) = watchdog_begin(options(2, true, false));
    let (dog, _) = step(dog, lost("gone"));
    let (dog, _) = step(dog, WatchEvent::Disconnected { alive_secs: 0 });
    let (dog, slept) = step(dog, failed());
    assert_eq!(slept.action, WatchAction::Sleep { secs: 1 });
    assert_eq!(
        shown(&slept),
        vec![
            "⚠️ [EVENT_RETRY_BACKOFF] Connection failed [timeout]: too slow; retrying in 1s \
             (1/2)...",
            "   Full error: operation timed out after a while",
        ]
    );
    let (dog, _) = step(dog, WatchEvent::Waited);
    let (dog, stopped) = step(dog, failed());
    assert_eq!(stopped.action, WatchAction::Stop);
    assert_eq!(
        shown(&stopped),
        vec![
            "❌ Connection failed, max retries reached (2)",
            "   Error type: timeout",
            "   Error detail: operation timed out after a while",
            "report: 0s, Connection failed: max retries reached, Some(\"timeout\")",
        ]
    );
    assert_eq!(dog.attempts(), 2);
    assert!(!dog.expects(&WatchEvent::Waited));
    assert!(!dog.expects(&failed()));
    assert!(!dog.expects(&lost("gone")));
}

#[test]
fn quiet_watchdog_only_reports() {
    let (dog, _) = watchdog_begin(options(1, true, true));
    let (dog, _) = step(dog, lost("gone"));
    let (dog, connecting) = step(dog, WatchEvent::Disconnected { alive_secs: 7 });
    assert_eq!(shown(&connecting), vec!["report: 7s, gone, None"]);
    assert!(!dog.expects(&WatchEvent::Waited));
    assert!(!dog.expects(&WatchEvent::Installed));
    let (_, stopped) = step(dog, failed());
    assert_eq!(stopped.action, WatchAction::Stop);
    assert_eq!(
        shown(&stopped),
        vec!["report: 0s, Connection failed: max retries reached, Some(\"timeout\")"]
    );
}
