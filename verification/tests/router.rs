use mcp_proxy::model::{McpType, ServiceStatus};
use mcp_proxy::router::{
    begin, expects, step, Action, ConfigSource, Event, HeaderConfig, Phase, Reply, RouterPath,
    RouterRequest, RouterState, Target, POLL_INTERVAL_MS, WAIT_LIMIT_MS,
};

fn request(header_config: Option<HeaderConfig>) -> RouterRequest {
    RouterRequest {
        path: "/mcp/sse/proxy/svc/sse".into(),
        route: Some(RouterPath {
            mcp_id: "svc".into(),
            base_path: "/mcp/sse/proxy/svc".into(),
        }),
        header_config,
    }
}

fn header(mcp_id: &str, has_json: bool) -> Option<HeaderConfig> {
    Some(HeaderConfig {
        mcp_id: mcp_id.into(),
        has_json,
    })
}

/// Runs a request through `events` and gives the state and the actions.
fn run(req: &RouterRequest, events: &[Event]) -> (RouterState, Vec<Action>) {
    let (mut state, action) = begin(req);
    let mut actions = vec![action];
    for event in events {
        assert!(
            expects(&state.phase, event),
            "{:?} does not fit {:?}",
            event,
            state
        );
        let (next, action) = step(req, &state, event);
        state = next;
        actions.push(action);
    }
    (state, actions)
}

fn reply_of(actions: &[Action]) -> (Option<&'static str>, String, Option<u16>) {
    match actions.last() {
        Some(Action::Answer { reply }) => {
            (reply.code(), reply.message(), reply.recorded_status())
        }
        other => panic!("no answer: {:?}", other),
    }
}

fn status(status: Option<ServiceStatus>, waited_ms: u64) -> Event {
    Event::Status { status, waited_ms }
}

fn lock(taken: bool, waited_ms: u64) -> Event {
    Event::Lock { taken, waited_ms }
}

#[test]
fn unknown_path_is_refused() {
    let req = RouterRequest {
        path: "/nowhere".into(),
        route: None,
        header_config: None,
    };
    let (state, actions) = run(&req, &[]);
    assert!(matches!(state.phase, Phase::Finished));
    assert_eq!(
        reply_of(&actions),
        (Some("0001"), "请求路径解析失败: /nowhere".to_string(), Some(400))
    );
}

#[test]
fn healthy_service_gets_the_request() {
    let req = request(None);
    let (state, actions) = run(
        &req,
        &[
            Event::Route(true),
            status(Some(ServiceStatus::Ready), 0),
            lock(true, 0),
            Event::Handler(true),
            Event::CachedHealth(Some(true)),
            Event::Done,
        ],
    );
    assert!(!state.locked);
    assert!(matches!(actions[0], Action::FindRoute { .. }));
    assert!(matches!(actions[5], Action::ReleaseLock { .. }));
    assert!(matches!(
        actions[6],
        Action::Forward {
            target: Target::Found
        }
    ));
    let (state, action) = step(&req, &state, &Event::Answered(true));
    assert!(matches!(action, Action::Deliver));
    assert!(matches!(state.phase, Phase::Finished));
    let (_, actions) = run(
        &req,
        &[
            Event::Route(true),
            status(None, 0),
            lock(true, 0),
            Event::Handler(true),
            Event::CachedHealth(None),
            Event::Health(true),
            Event::Done,
            Event::Done,
            Event::Answered(false),
        ],
    );
    assert!(matches!(
        actions[6],
        Action::RecordHealth { healthy: true, .. }
    ));
    assert_eq!(reply_of(&actions), (None, String::new(), None));
}

#[test]
fn starting_service_is_waited_for() {
    let req = request(None);
    let (_, actions) = run(
        &req,
        &[
            Event::Route(true),
            status(Some(ServiceStatus::Pending), 14_999),
            Event::Awake,
            status(Some(ServiceStatus::Pending), 15_000),
        ],
    );
    assert!(matches!(actions[2], Action::Sleep { ms: 150 }));
    assert!(matches!(actions[3], Action::ReadStatus { .. }));
    assert_eq!(
        reply_of(&actions),
        (
            Some("0003"),
            "服务 svc 正在初始化中，请稍后再试".to_string(),
            Some(503)
        )
    );
    let (_, actions) = run(
        &req,
        &[
            Event::Route(true),
            status(Some(ServiceStatus::Ready), 0),
            lock(false, 10),
            Event::Awake,
            status(Some(ServiceStatus::Ready), 15_100),
            lock(false, 15_100),
        ],
    );
    assert!(matches!(actions[3], Action::Sleep { ms: 150 }));
    assert_eq!(
        reply_of(&actions),
        (
            Some("0003"),
            "服务 svc 正在启动中，请稍后再试".to_string(),
            Some(503)
        )
    );
    assert_eq!(WAIT_LIMIT_MS / POLL_INTERVAL_MS, 100);
}

#[test]
fn wait_ends_after_a_hundred_sleeps() {
    let req = request(None);
    let mut events = vec![Event::Route(true)];
    for i in 0..100 {
        events.push(status(Some(ServiceStatus::Pending), i * 150));
        events.push(Event::Awake);
    }
    events.push(status(Some(ServiceStatus::Pending), 100 * 150));
    let (state, actions) = run(&req, &events);
    assert!(matches!(state.phase, Phase::Finished));
    assert_eq!(reply_of(&actions).0, Some("0003"));
}

#[test]
fn failed_service_is_cleaned_up() {
    let req = request(header("svc", true));
    let (state, actions) = run(
        &req,
        &[
            Event::Route(true),
            status(Some(ServiceStatus::Error("boom".into())), 0),
            Event::Done,
        ],
    );
    assert!(matches!(actions[2], Action::CleanUp { .. }));
    assert!(matches!(state.phase, Phase::Finished));
    assert_eq!(
        reply_of(&actions),
        (Some("0005"), "服务 svc 启动失败: boom".to_string(), Some(503))
    );
}

#[test]
fn unhealthy_service_is_restarted() {
    let upto_cleanup = [
        Event::Route(true),
        status(Some(ServiceStatus::Ready), 0),
        lock(true, 0),
        Event::Handler(true),
        Event::CachedHealth(Some(false)),
        Event::Kind(Some(McpType::Persistent)),
        Event::Done,
    ];
    let mut with_header = upto_cleanup.to_vec();
    with_header.push(Event::Done);
    let (state, actions) = run(&request(header("other", true)), &with_header);
    assert!(matches!(&actions[7], Action::RegisterHeaderConfig { mcp_id } if mcp_id == "other"));
    assert!(state.locked);
    assert!(matches!(
        actions[8],
        Action::Start {
            source: ConfigSource::Header
        }
    ));

    let mut with_cache = upto_cleanup.to_vec();
    with_cache.push(Event::CachedConfig(Some(McpType::Persistent)));
    with_cache.push(Event::Started(true));
    let (state, actions) = run(&request(header("svc", false)), &with_cache);
    assert!(state.locked);
    assert!(matches!(
        actions[8],
        Action::Start {
            source: ConfigSource::Cache
        }
    ));
    assert!(matches!(
        actions[9],
        Action::Forward {
            target: Target::Started
        }
    ));

    let mut without = upto_cleanup.to_vec();
    without.push(Event::CachedConfig(None));
    let (_, actions) = run(&request(None), &without);
    assert_eq!(
        reply_of(&actions),
        (
            Some("0004"),
            "服务 svc 不健康且无法获取配置".to_string(),
            None
        )
    );
}

#[test]
fn one_shot_is_not_restarted() {
    let (_, actions) = run(
        &request(header("svc", true)),
        &[
            Event::Route(true),
            status(None, 0),
            lock(true, 0),
            Event::Handler(true),
            Event::CachedHealth(None),
            Event::Health(false),
            Event::Done,
            Event::Kind(Some(McpType::OneShot)),
            Event::Done,
        ],
    );
    let ended = (
        Some("0006"),
        "OneShot 服务 svc 已结束，请重新启动".to_string(),
        None,
    );
    assert_eq!(reply_of(&actions), ended);
    let (_, actions) = run(
        &request(header("svc", true)),
        &[
            Event::Route(true),
            status(None, 0),
            lock(true, 0),
            Event::Handler(false),
            Event::Kind(Some(McpType::OneShot)),
            Event::Done,
        ],
    );
    assert!(matches!(actions[5], Action::CleanUp { .. }));
    assert_eq!(reply_of(&actions), ended);
    let (_, actions) = run(
        &request(None),
        &[
            Event::Route(false),
            Event::CachedConfig(Some(McpType::OneShot)),
        ],
    );
    assert_eq!(
        reply_of(&actions),
        (
            Some("0007"),
            "OneShot 服务 svc 需要通过 check_status 接口启动".to_string(),
            None
        )
    );
}

#[test]
fn missing_service_is_started() {
    let req = request(header("cfg", true));
    let (state, actions) = run(
        &req,
        &[
            Event::Route(false),
            Event::MayRestart(true),
            lock(true, 0),
            Event::Done,
            Event::Started(true),
            Event::Answered(true),
        ],
    );
    assert!(matches!(&actions[1], Action::AskRestart { mcp_id } if mcp_id == "cfg"));
    assert!(matches!(&actions[2], Action::TryLock { mcp_id } if mcp_id == "cfg"));
    assert!(matches!(&actions[3], Action::RegisterHeaderConfig { mcp_id } if mcp_id == "cfg"));
    assert!(matches!(actions[6], Action::Deliver));
    assert!(!state.locked);
    let (_, actions) = run(&req, &[Event::Route(false), Event::MayRestart(false)]);
    assert_eq!(
        reply_of(&actions),
        (
            Some("0002"),
            "服务 cfg 在重启冷却期内，请稍后再试".to_string(),
            Some(429)
        )
    );
    let (_, actions) = run(
        &req,
        &[Event::Route(false), Event::MayRestart(true), lock(false, 0)],
    );
    assert_eq!(
        reply_of(&actions),
        (
            Some("0003"),
            "服务 cfg 正在启动中，请稍后再试".to_string(),
            Some(503)
        )
    );
}

#[test]
fn missing_service_is_started_from_the_cache() {
    let req = request(None);
    let cached = Event::CachedConfig(Some(McpType::Persistent));
    let (_, actions) = run(
        &req,
        &[
            Event::Route(true),
            status(None, 0),
            lock(true, 0),
            Event::Handler(false),
            Event::Kind(None),
            Event::Done,
            cached.clone(),
            Event::MayRestart(true),
            lock(true, 0),
            Event::Started(false),
        ],
    );
    assert!(matches!(actions[5], Action::ReleaseLock { .. }));
    assert!(matches!(
        actions[9],
        Action::Start {
            source: ConfigSource::Cache
        }
    ));
    assert!(matches!(
        actions[10],
        Action::Answer {
            reply: Reply::InternalError
        }
    ));
    let (_, actions) = run(
        &req,
        &[Event::Route(false), cached.clone(), Event::MayRestart(false)],
    );
    assert_eq!(reply_of(&actions).0, Some("0002"));
    let (_, actions) = run(
        &req,
        &[
            Event::Route(false),
            cached,
            Event::MayRestart(true),
            lock(false, 0),
        ],
    );
    assert_eq!(reply_of(&actions).0, Some("0003"));
    let (_, actions) = run(&req, &[Event::Route(false), Event::CachedConfig(None)]);
    assert_eq!(
        reply_of(&actions),
        (
            Some("0001"),
            "未找到匹配的路径,且未获取到配置,无法启动MCP服务: /mcp/sse/proxy/svc/sse".to_string(),
            Some(404)
        )
    );
}

#[test]
fn misplaced_events_are_noticed() {
    assert!(!expects(&Phase::FindingRoute, &Event::Done));
    assert!(!expects(&Phase::Finished, &Event::Done));
    assert!(!expects(&Phase::Starting, &Event::Answered(true)));
    assert!(expects(&Phase::CleaningOrphan, &Event::Done));
}
