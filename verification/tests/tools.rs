use mcp_proxy::tools::{
    filter_tools, list_client_tools, list_server_tools, shown_tools, tool_infos, ToolEntry,
    ToolFilter, ToolInfo, ToolPage, CLIENT_DESCRIPTION_LIMIT,
};

fn strings(list: &[&str]) -> Vec<String> {
    list.iter().map(|s| s.to_string()).collect()
}

fn page(names: &[&str]) -> ToolPage<usize> {
    ToolPage {
        tools: names
            .iter()
            .enumerate()
            .map(|(i, n)| ToolEntry {
                name: n.to_string(),
                details: i,
            })
            .collect(),
        next_cursor: Some("c".into()),
    }
}

fn tool(name: &str, description: Option<&str>) -> ToolInfo {
    ToolInfo {
        name: name.into(),
        description: description.map(|d| d.to_string()),
    }
}

#[test]
fn test_tool_info() {
    let info = ToolInfo {
        name: "test_tool".to_string(),
        description: Some("A test tool".to_string()),
    };
    assert_eq!(info.name, "test_tool");
    assert_eq!(info.description, Some("A test tool".to_string()));
}

#[test]
fn filters_combine() {
    let open = ToolFilter::default();
    assert!(!open.is_enabled());
    assert!(open.is_allowed("anything"));
    let allow = ToolFilter {
        allow_tools: Some(strings(&["a", "b"])),
        deny_tools: None,
    };
    assert!(allow.is_enabled());
    assert!(allow.is_allowed("a"));
    assert!(!allow.is_allowed("c"));
    let deny = ToolFilter {
        allow_tools: None,
        deny_tools: Some(strings(&["b"])),
    };
    assert!(deny.is_enabled());
    assert!(deny.is_allowed("a"));
    assert!(!deny.is_allowed("b"));
    let both = ToolFilter {
        allow_tools: Some(strings(&["a", "b"])),
        deny_tools: Some(strings(&["b"])),
    };
    assert!(both.is_allowed("a"));
    assert!(!both.is_allowed("b"));
    assert!(!both.is_allowed("c"));
}

#[test]
fn only_allowed_tools_stay_in_order() {
    let filter = ToolFilter {
        allow_tools: None,
        deny_tools: Some(strings(&["b"])),
    };
    let kept = filter_tools(&filter, page(&["a", "b", "c", "b", "d"]));
    let names: Vec<&str> = kept.tools.iter().map(|t| t.name.as_str()).collect();
    assert_eq!(names, vec!["a", "c", "d"]);
    let details: Vec<usize> = kept.tools.iter().map(|t| t.details).collect();
    assert_eq!(details, vec![0, 2, 4]);
    assert_eq!(kept.next_cursor.as_deref(), Some("c"));
    let all = filter_tools(&ToolFilter::default(), page(&["a", "b"]));
    assert_eq!(all.tools.len(), 2);
}

#[test]
fn server_lists_its_first_tools() {
    let long = "x".repeat(51);
    let lines = list_server_tools(&vec![
        tool("a", Some("does a")),
        tool("b", None),
        tool("c", Some(&long)),
    ]);
    assert_eq!(
        lines,
        vec![
            "🔧 Available tools (3):".to_string(),
            "   - a : does a".to_string(),
            "   - b : 无描述".to_string(),
            format!("   - c : {}...", "x".repeat(50)),
        ]
    );
    let fifty = "y".repeat(50);
    assert_eq!(
        list_server_tools(&vec![tool("d", Some(&fifty))])[1],
        format!("   - d : {}", fifty)
    );
    assert_eq!(
        list_server_tools(&vec![]),
        vec!["⚠️Tool list is empty".to_string()]
    );
    let many: Vec<ToolInfo> = (0..13).map(|i| tool(&format!("t{i}"), Some("d"))).collect();
    let lines = list_server_tools(&many);
    assert_eq!(lines.len(), 12);
    assert_eq!(lines[0], "🔧 Available tools (13):");
    assert_eq!(lines[10], "   - t9 : d");
    assert_eq!(lines[11], "... and 3 other tools");
    let ten: Vec<ToolInfo> = (0..10).map(|i| tool(&format!("t{i}"), Some("d"))).collect();
    assert_eq!(list_server_tools(&ten).len(), 11);
}

#[test]
fn client_lists_all_tools() {
    assert_eq!(
        list_client_tools(&vec![]),
        vec!["⚠️  Tool list is empty (tools/list returned 0 tools)".to_string()]
    );
    let many: Vec<ToolInfo> = (0..12).map(|i| tool(&format!("t{i}"), None)).collect();
    let lines = list_client_tools(&shown_tools(many));
    assert_eq!(lines.len(), 13);
    assert_eq!(lines[0], "🔧 Available tools (12):");
    assert_eq!(lines[12], "   - t11 : no description");
    let mut shown = shown_tools(vec![tool("a", Some("does a")), tool("b", Some("does b"))]);
    assert_eq!(shown[1].name, "b");
    assert_eq!(shown[1].description, "does b");
    shown[0].description = "does".to_string();
    let lines = list_client_tools(&shown);
    assert_eq!(lines[1], "   - a : does");
    assert_eq!(lines[2], "   - b : does b");
    assert_eq!(CLIENT_DESCRIPTION_LIMIT, 50);
}

#[test]
fn tools_keep_their_order() {
    let infos = tool_infos(vec![
        ("b".to_string(), None),
        ("a".to_string(), Some("does a".to_string())),
    ]);
    assert_eq!(infos.len(), 2);
    assert_eq!(infos[0].name, "b");
    assert_eq!(infos[0].description, None);
    assert_eq!(infos[1].name, "a");
    assert_eq!(infos[1].description.as_deref(), Some("does a"));
}
