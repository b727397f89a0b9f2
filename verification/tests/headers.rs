use mcp_proxy::client_config::{
    bearer_token, build_mcp_config, detection_headers, http_client_plan, merged_headers,
    normalize_headers, stream_client_config, McpClientConfig,
};
use mcp_proxy::headers::{parse_headers, HeaderError, HEADER_LIMIT};
use mcp_proxy::table::Table;
use mcp_proxy::time::Duration;

fn table(entries: &[(&str, &str)]) -> Table<String> {
    let mut t: Table<String> = Table::new();
    for (k, v) in entries {
        t = t.with(k.to_string(), v.to_string());
    }
    t
}

fn pairs(t: &Table<String>) -> Vec<(String, String)> {
    (0..t.len())
        .map(|i| (t.key(i).clone(), t.value(i).clone()))
        .collect()
}

fn pair(k: &str, v: &str) -> (String, String) {
    (k.to_string(), v.to_string())
}

#[test]
fn authorization_is_marked() {
    let headers = Some(table(&[
        ("authorization", "abc"),
        ("AUTHORIZATION", "Bearer def"),
        ("X-Authorization", "ghi"),
    ]));
    let normalized = normalize_headers(&headers).unwrap();
    assert_eq!(
        pairs(&normalized),
        vec![
            pair("authorization", "Bearer abc"),
            pair("AUTHORIZATION", "Bearer def"),
            pair("X-Authorization", "ghi"),
        ]
    );
    let again = normalize_headers(&Some(normalized)).unwrap();
    assert_eq!(again.get("authorization").unwrap(), "Bearer abc");
    assert!(normalize_headers(&None).is_none());
    assert_eq!(bearer_token("bearer x"), "Bearer bearer x");
    assert_eq!(bearer_token("Bearer"), "Bearer Bearer");
    assert_eq!(bearer_token(""), "Bearer ");
}

#[test]
fn client_and_server_normalize_the_same_way() {
    let headers = table(&[("Authorization", "abc"), ("K", "v")]);
    let config = build_mcp_config("http://h", &headers, None);
    let server = normalize_headers(&Some(headers)).unwrap();
    assert_eq!(config.url, "http://h");
    assert_eq!(pairs(&config.headers), pairs(&server));
    assert!(config.connect_timeout.is_none());
    assert!(config.read_timeout.is_none());
}

#[test]
fn command_line_authorization_is_sent_as_given() {
    let headers = table(&[("Authorization", "abc"), ("K", "v")]);
    let auth = "raw".to_string();
    let config = build_mcp_config("http://h", &headers, Some(&auth));
    assert_eq!(config.headers.len(), 2);
    assert_eq!(config.headers.get("Authorization").unwrap(), "raw");
    assert_eq!(config.headers.get("K").unwrap(), "v");
    let lower = table(&[("authorization", "abc")]);
    let config = build_mcp_config("http://h", &lower, Some(&auth));
    assert_eq!(config.headers.len(), 2);
    assert_eq!(config.headers.get("authorization").unwrap(), "Bearer abc");
}

#[test]
fn detection_uses_the_token() {
    assert!(detection_headers(&None, &None).is_none());
    assert!(detection_headers(&Some(table(&[])), &None).is_none());
    let token = Some("t".to_string());
    let headers = detection_headers(&Some(table(&[("Authorization", "x"), ("K", "v")])), &token);
    let headers = headers.unwrap();
    assert_eq!(headers.get("Authorization").unwrap(), "Bearer t");
    assert_eq!(headers.get("K").unwrap(), "v");
    let config = stream_client_config("u", &None, &Some("Bearer q".to_string()));
    assert_eq!(config.headers.get("Authorization").unwrap(), "Bearer q");
    assert_eq!(config.url, "u");
}

#[test]
fn http_client_is_planned() {
    let mut config = McpClientConfig::new("http://h")
        .with_header("X-Key", "one")
        .with_header("x-KEY", "two")
        .with_header("Name", "值");
    config.connect_timeout = Some(Duration::from_secs(3));
    config.read_timeout = Some(Duration::from_secs(4));
    let plan = http_client_plan(&config).unwrap();
    assert_eq!(plan.headers.len(), 2);
    assert_eq!(plan.headers.get("x-key").unwrap(), "two");
    assert_eq!(plan.headers.get("name").unwrap().as_bytes(), "值".as_bytes());
    assert_eq!(plan.connect_timeout, Some(Duration::from_secs(3)));
    assert_eq!(plan.timeout, Some(Duration::from_secs(4)));
}

#[test]
fn header_that_is_set_again_keeps_its_place() {
    let config = McpClientConfig::new("u")
        .with_header("A", "1")
        .with_header("B", "2")
        .with_header("A", "3");
    assert_eq!(pairs(&config.headers), vec![pair("A", "3"), pair("B", "2")]);
}

#[test]
fn first_bad_header_is_reported() {
    let config = McpClientConfig::new("u")
        .with_header("Good", "v")
        .with_header("Bad", "a\u{0}b")
        .with_header("also bad", "v");
    let e = http_client_plan(&config).unwrap_err();
    assert!(matches!(&e, HeaderError::InvalidValue { key, .. } if key == "Bad"));
    assert_eq!(
        e.stream_client_message(),
        "Invalid header value for Bad: a\u{0}b"
    );
    assert_eq!(
        e.sse_client_message(),
        "Invalid header value for 'Bad': failed to parse header value"
    );
    for name in ["", "a b", "a:b", "ä", "a\"b", "(x)"] {
        let e = http_client_plan(&McpClientConfig::new("u").with_header(name, "\n")).unwrap_err();
        assert!(matches!(e, HeaderError::InvalidName { .. }));
        assert_eq!(
            e.stream_client_message(),
            format!("Invalid header name: {name}")
        );
    }
    let long = "a".repeat(65536);
    assert!(http_client_plan(&McpClientConfig::new("u").with_header(&long, "v")).is_err());
    let fits = "a".repeat(65535);
    assert!(http_client_plan(&McpClientConfig::new("u").with_header(&fits, "v")).is_ok());
}

/// So many headers, whose names differ at their ends first.
fn many(n: usize) -> Table<String> {
    let mut t: Table<String> = Table::new();
    for i in 0..n {
        let name: String = format!("{i:05}").chars().rev().collect();
        t = t.with(name, "v".to_string());
    }
    t
}

#[test]
fn headers_up_to_the_limit_are_taken() {
    assert_eq!(HEADER_LIMIT, 6554);
    let taken = parse_headers(&many(HEADER_LIMIT)).unwrap();
    assert_eq!(taken.len(), HEADER_LIMIT);
}

#[test]
fn too_many_headers_are_refused() {
    let e = parse_headers(&many(24577)).unwrap_err();
    assert!(matches!(e, HeaderError::TooMany));
    assert_eq!(e.stream_client_message(), "size overflows MAX_SIZE");
    assert_eq!(e.sse_client_message(), "size overflows MAX_SIZE");
}

#[test]
fn merged_headers_hold_the_token() {
    assert!(merged_headers(&None, &None).is_none());
    assert!(merged_headers(&Some(table(&[])), &None).unwrap().is_empty());
    let token = Some("t".to_string());
    let alone = merged_headers(&None, &token).unwrap();
    assert_eq!(pairs(&alone), vec![pair("Authorization", "Bearer t")]);
    let over = merged_headers(&Some(table(&[("Authorization", "x"), ("K", "v")])), &token);
    assert_eq!(
        pairs(&over.unwrap()),
        vec![pair("Authorization", "Bearer t"), pair("K", "v")]
    );
}

#[test]
fn all_name_characters_are_taken() {
    let every: String = (0u32..128)
        .filter_map(char::from_u32)
        .filter(|c| c.is_ascii_alphanumeric() || "!#$%&'*+-.^_`|~".contains(*c))
        .collect();
    let plan = http_client_plan(&McpClientConfig::new("u").with_header(&every, "v")).unwrap();
    assert!(plan.headers.get(every.to_lowercase().as_str()).is_some());
    for code in 0u32..256 {
        let c = char::from_u32(code).unwrap();
        let name = c.to_string();
        let taken = http_client_plan(&McpClientConfig::new("u").with_header(&name, "v")).is_ok();
        assert_eq!(taken, every.contains(c), "{code}");
        let value_taken =
            http_client_plan(&McpClientConfig::new("u").with_header("k", &name)).is_ok();
        assert_eq!(value_taken, code == 9 || (code >= 32 && code != 127), "{code}");
    }
}
