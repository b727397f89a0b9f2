use mcp_proxy::fallback::{
    base_path_fallback_handler, service_to_find, FallbackResponse, HttpMethod,
};

fn get(path: &str, exists: bool, accept: Option<&[u8]>) -> FallbackResponse {
    base_path_fallback_handler(HttpMethod::Get, path, exists, accept)
}

fn check(r: FallbackResponse, status: u16, header: (&str, &str), body: &str) {
    assert_eq!(r.status, status);
    assert_eq!((r.header_name, r.header_value.as_str()), header);
    assert_eq!(r.body, body);
}

const PLAIN: (&str, &str) = ("Content-Type", "text/plain");
const JSON: (&str, &str) = ("Content-Type", "application/json");

#[test]
fn service_is_read_from_the_path() {
    assert_eq!(
        service_to_find(HttpMethod::Get, "/mcp/sse/proxy/svc").as_deref(),
        Some("svc")
    );
    assert_eq!(
        service_to_find(HttpMethod::Get, "/sse/proxy/a/sse/proxy/b").as_deref(),
        Some("a")
    );
    assert_eq!(
        service_to_find(HttpMethod::Get, "/sse/proxy/").as_deref(),
        Some("")
    );
    assert_eq!(
        service_to_find(HttpMethod::Get, "/sse/proxy/svc/deep").as_deref(),
        Some("svc/deep")
    );
    assert_eq!(service_to_find(HttpMethod::Post, "/mcp/sse/proxy/svc"), None);
    assert_eq!(service_to_find(HttpMethod::Get, "/mcp/stream/proxy/svc"), None);
}

#[test]
fn events_are_redirected() {
    let path = "/mcp/sse/proxy/svc";
    check(
        get(path, false, Some(b"text/event-stream")),
        404,
        PLAIN,
        "MCP service 'svc' not found",
    );
    check(
        get(path, true, Some(b"application/json, text/event-stream")),
        302,
        ("Location", "/mcp/sse/proxy/svc/sse"),
        "Redirecting to SSE endpoint",
    );
    let invalid = "SSE error: Invalid Accept header, expected 'text/event-stream'";
    check(get(path, true, Some(b"text/html")), 400, PLAIN, invalid);
    check(
        get(path, true, Some(b"text/event-stream\xff")),
        400,
        PLAIN,
        invalid,
    );
    check(
        get(path, true, Some(b"text/event-stream\x00")),
        400,
        PLAIN,
        invalid,
    );
    check(
        get(path, true, None),
        400,
        PLAIN,
        "SSE error: Missing Accept header, expected 'text/event-stream'",
    );
}

#[test]
fn messages_are_redirected() {
    let path = "/mcp/sse/proxy/svc";
    check(
        base_path_fallback_handler(HttpMethod::Post, path, false, None),
        302,
        ("Location", "/mcp/sse/proxy/svc/message"),
        "Redirecting to message endpoint",
    );
    check(
        base_path_fallback_handler(HttpMethod::Other, path, true, None),
        405,
        ("Allow", "GET, POST"),
        "Only GET and POST methods are allowed",
    );
}

#[test]
fn streams_are_answered() {
    let path = "/mcp/stream/proxy/svc";
    check(
        get(path, false, None),
        200,
        JSON,
        r#"{"jsonrpc":"2.0","result":{"info":"Streamable MCP Server","version":"1.0"}}"#,
    );
    check(
        base_path_fallback_handler(HttpMethod::Post, path, false, None),
        200,
        JSON,
        r#"{"jsonrpc":"2.0","result":{"message":"Stream request received","protocol":"streamable-http"}}"#,
    );
    check(
        base_path_fallback_handler(HttpMethod::Other, path, false, None),
        405,
        ("Allow", "GET, POST"),
        "Only GET and POST methods are allowed",
    );
    check(
        get("/elsewhere", true, None),
        400,
        PLAIN,
        "Unknown protocol or path",
    );
}
