use mcp_proxy::sse_client::{
    connected_lines, print_sse_tools, ConnectOutcome, ConnectStep, InitialConnect,
};
use mcp_proxy::tools::ShownTool;

#[test]
fn first_connection_is_tried_three_times() {
    let refused = ConnectOutcome::Failed("refused".into());
    let (second, wait, notice) = match InitialConnect::first().after(&refused, false) {
        ConnectStep::Retry {
            next,
            wait_secs,
            notice,
        } => (next, wait_secs, notice),
        other => panic!("{:?}", other),
    };
    assert_eq!(wait, 2);
    assert_eq!(
        notice.as_deref(),
        Some("⚠️ Connection attempt 1/3 failed, retrying in 2s...")
    );
    let (third, wait, notice) = match second.after(&ConnectOutcome::TimedOut, true) {
        ConnectStep::Retry {
            next,
            wait_secs,
            notice,
        } => (next, wait_secs, notice),
        other => panic!("{:?}", other),
    };
    assert_eq!(wait, 4);
    assert_eq!(notice, None);
    match third.after(&ConnectOutcome::TimedOut, false) {
        ConnectStep::GiveUp { message } => {
            assert_eq!(message, "Backend connection timeout (15s)")
        }
        other => panic!("{:?}", other),
    }
    match third.after(&refused, false) {
        ConnectStep::GiveUp { message } => {
            assert_eq!(message, "Backend connection failed: refused")
        }
        other => panic!("{:?}", other),
    }
    assert!(matches!(
        third.after(&ConnectOutcome::Connected, false),
        ConnectStep::Done
    ));
}

#[test]
fn connection_is_reported() {
    let tools = Ok(vec![ShownTool {
        name: "t".into(),
        description: "d".into(),
    }]);
    assert_eq!(
        connected_lines(&tools, 30, 10),
        vec![
            "✅ Backend connected successfully".to_string(),
            "🔧 Available tools (1):".to_string(),
            "   - t : d".to_string(),
            "💓 Health ping: every 30s (timeout 10s)".to_string(),
        ]
    );
    assert_eq!(
        connected_lines(&Err("e".into()), 0, 10),
        vec![
            "✅ Backend connected successfully".to_string(),
            "⚠️  Failed to list tools: e".to_string(),
        ]
    );
    assert_eq!(
        print_sse_tools(&Ok(vec![])),
        vec!["⚠️  Tool list is empty (tools/list returned 0 tools)".to_string()]
    );
}
