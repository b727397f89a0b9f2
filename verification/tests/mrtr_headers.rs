use mcp_proxy::mrtr_headers::{
    extract_mrtr_envelope, mrtr_headers, outgoing_headers, ClientMessage, MetaValue,
    MrtrHeaderClient, ToolCall, ENVELOPE_CLIENT_CAPABILITIES_KEY, ENVELOPE_PROTOCOL_VERSION_KEY,
};
use mcp_proxy::table::Table;
use serde_json::Value;

fn meta_value(value: &Value) -> MetaValue {
    match value {
        Value::String(s) => MetaValue::Text(s.clone()),
        Value::Object(_) => MetaValue::Object,
        _ => MetaValue::Other,
    }
}

fn meta_table(meta: &Value) -> Table<MetaValue> {
    let mut t: Table<MetaValue> = Table::new();
    for (k, v) in meta.as_object().unwrap() {
        t = t.with(k.clone(), meta_value(v));
    }
    t
}

fn message_from_json(text: &str) -> ClientMessage {
    let value: Value = serde_json::from_str(text).expect("valid JSON");
    if value["method"] != "tools/call" {
        return ClientMessage::OtherRequest;
    }
    let params = &value["params"];
    ClientMessage::CallTool(ToolCall {
        name: params["name"].as_str().unwrap().to_string(),
        params_meta: None,
        extensions_meta: params.get("_meta").map(meta_table),
    })
}

const FULL_CALL: &str = r#"{
    "jsonrpc": "2.0",
    "id": 1,
    "method": "tools/call",
    "params": {
        "name": "delete_environment",
        "arguments": { "environmentId": "env-1" },
        "_meta": {
            "io.modelcontextprotocol/protocolVersion": "2026-07-28",
            "io.modelcontextprotocol/clientCapabilities": { "elicitation": {} }
        },
        "inputResponses": {
            "confirm": { "action": "accept", "content": { "confirm": true } }
        }
    }
}"#;

fn envelope_meta(version: MetaValue, capabilities: MetaValue) -> Table<MetaValue> {
    let t: Table<MetaValue> = Table::new();
    t.with(ENVELOPE_PROTOCOL_VERSION_KEY.to_string(), version)
        .with(ENVELOPE_CLIENT_CAPABILITIES_KEY.to_string(), capabilities)
}

fn call(
    name: &str,
    params_meta: Option<Table<MetaValue>>,
    extensions_meta: Option<Table<MetaValue>>,
) -> ClientMessage {
    ClientMessage::CallTool(ToolCall {
        name: name.to_string(),
        params_meta,
        extensions_meta,
    })
}

fn text(s: &str) -> MetaValue {
    MetaValue::Text(s.to_string())
}

fn custom() -> Table<String> {
    let t: Table<String> = Table::new();
    t.with("mcp-protocol-version".to_string(), "2025-06-18".to_string())
        .with("x-other".to_string(), "kept".to_string())
}

#[test]
fn test_extract_envelope_from_tools_call() {
    let msg = message_from_json(FULL_CALL);
    let (version, name) = extract_mrtr_envelope(&msg).expect("envelope should be detected");
    assert_eq!(version, "2026-07-28");
    assert_eq!(name, "delete_environment");
}

#[test]
fn test_extract_envelope_from_locally_constructed_request() {
    let msg = call(
        "delete_environment",
        Some(envelope_meta(text("2026-07-28"), MetaValue::Object)),
        None,
    );
    let (version, name) = extract_mrtr_envelope(&msg).expect("envelope should be detected");
    assert_eq!(version, "2026-07-28");
    assert_eq!(name, "delete_environment");
}

#[test]
fn test_mrtr_headers_override_and_set() {
    let headers = mrtr_headers("2026-07-28", "delete_environment").unwrap();
    assert_eq!(headers.get("mcp-protocol-version").unwrap(), "2026-07-28");
    assert_eq!(headers.get("mcp-method").unwrap(), "tools/call");
    assert_eq!(headers.get("mcp-name").unwrap(), "delete_environment");
}

#[test]
fn test_no_envelope_without_meta() {
    let msg = message_from_json(
        r#"{
            "jsonrpc": "2.0",
            "id": 1,
            "method": "tools/call",
            "params": { "name": "list_things", "arguments": {} }
        }"#,
    );
    assert!(extract_mrtr_envelope(&msg).is_none());
}

#[test]
fn test_no_envelope_with_partial_meta() {
    let msg = message_from_json(
        r#"{
            "jsonrpc": "2.0",
            "id": 1,
            "method": "tools/call",
            "params": {
                "name": "delete_environment",
                "_meta": { "io.modelcontextprotocol/protocolVersion": "2026-07-28" }
            }
        }"#,
    );
    assert!(extract_mrtr_envelope(&msg).is_none());
}

#[test]
fn test_no_envelope_on_other_methods() {
    let msg = message_from_json(
        r#"{
            "jsonrpc": "2.0",
            "id": 2,
            "method": "tools/list"
        }"#,
    );
    assert!(extract_mrtr_envelope(&msg).is_none());
}

#[test]
fn ill_typed_envelope_is_none() {
    let number = call(
        "t",
        Some(envelope_meta(MetaValue::Other, MetaValue::Object)),
        None,
    );
    assert!(extract_mrtr_envelope(&number).is_none());
    let list = call("t", Some(envelope_meta(text("v"), MetaValue::Other)), None);
    assert!(extract_mrtr_envelope(&list).is_none());
    assert!(extract_mrtr_envelope(&ClientMessage::NotARequest).is_none());
}

#[test]
fn message_metadata_goes_over_parameters() {
    let both = call(
        "t",
        Some(envelope_meta(text("old"), MetaValue::Object)),
        Some(envelope_meta(text("new"), MetaValue::Object)),
    );
    assert_eq!(
        extract_mrtr_envelope(&both),
        Some(("new".to_string(), "t".to_string()))
    );
    let half: Table<MetaValue> = Table::new();
    let split = call(
        "t",
        Some(envelope_meta(text("v"), MetaValue::Object)),
        Some(half.with("progressToken".to_string(), MetaValue::Other)),
    );
    assert_eq!(
        extract_mrtr_envelope(&split),
        Some(("v".to_string(), "t".to_string()))
    );
    let spoilt: Table<MetaValue> = Table::new();
    let shadowed = call(
        "t",
        Some(envelope_meta(text("v"), MetaValue::Object)),
        Some(spoilt.with(ENVELOPE_PROTOCOL_VERSION_KEY.to_string(), MetaValue::Other)),
    );
    assert!(extract_mrtr_envelope(&shadowed).is_none());
}

#[test]
fn unsendable_envelope_is_skipped() {
    assert!(mrtr_headers("2026\n", "tool").is_none());
    assert!(mrtr_headers("2026", "to\u{7f}ol").is_none());
    let headers = mrtr_headers("v", "工具\t").unwrap();
    assert_eq!(headers.get("mcp-name").unwrap(), "工具\t");
    let msg = call(
        "bad\rname",
        Some(envelope_meta(text("v"), MetaValue::Object)),
        None,
    );
    let sent = outgoing_headers(&msg, custom());
    assert_eq!(sent.len(), 2);
    assert_eq!(sent.get("mcp-protocol-version").unwrap(), "2025-06-18");
}

#[test]
fn outgoing_headers_agree_with_the_message() {
    let sent = outgoing_headers(&message_from_json(FULL_CALL), custom());
    assert_eq!(sent.len(), 4);
    assert_eq!(sent.get("mcp-protocol-version").unwrap(), "2026-07-28");
    assert_eq!(sent.get("mcp-method").unwrap(), "tools/call");
    assert_eq!(sent.get("mcp-name").unwrap(), "delete_environment");
    assert_eq!(sent.get("x-other").unwrap(), "kept");
    let untouched = outgoing_headers(&ClientMessage::OtherRequest, custom());
    assert_eq!(untouched.len(), 2);
    assert_eq!(untouched.get("mcp-protocol-version").unwrap(), "2025-06-18");
}

#[test]
fn client_keeps_its_sender() {
    let client = MrtrHeaderClient::new("sender");
    assert_eq!(*client.inner(), "sender");
}
