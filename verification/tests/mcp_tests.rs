use tachy_daemon::mcp::{classify_method, is_mcp_tool, method_not_found, split_tool_name, McpClientManager, McpMethod, McpTool};

fn tool(server: &str, name: &str) -> McpTool {
    McpTool {
        server_name: server.to_string(),
        tool_name: name.to_string(),
        description: "Run SQL".to_string(),
        input_schema: serde_json::Value::Object(serde_json::Map::new()),
    }
}

#[test]
fn mcp_tool_qualified_name() {
    assert_eq!(tool("database", "query").qualified_name(), "mcp__database_query");
}

#[test]
fn mcp_client_manager_rejects_bad_names() {
    let mgr = McpClientManager::new();
    let err = mgr.route("not_mcp_tool").unwrap_err();
    assert!(err.contains("invalid MCP tool name"));
}

#[test]
fn mcp_client_manager_rejects_unknown_server() {
    let mgr = McpClientManager::new();
    let err = mgr.route("mcp__unknown__tool").unwrap_err();
    assert!(err.contains("not connected"));
}

#[test]
fn routes_to_connected_servers() {
    let mut mgr = McpClientManager::new();
    mgr.add_server("db".to_string(), vec![tool("db", "query"), tool("db", "schema")]);
    mgr.add_server("gh".to_string(), vec![tool("gh", "issues")]);
    assert_eq!(mgr.route("mcp__db__query").unwrap(), ("db".to_string(), "query".to_string()));
    assert_eq!(mgr.route("mcp__gh__list__all").unwrap(), ("gh".to_string(), "list__all".to_string()));
    assert_eq!(mgr.all_tools().len(), 3);
    assert!(mgr.is_mcp_tool("mcp__x"));
}

#[test]
fn splitting_names() {
    assert_eq!(split_tool_name("mcp__a__b").unwrap(), ("a".to_string(), "b".to_string()));
    assert_eq!(
        split_tool_name("mcp__a").unwrap_err(),
        "invalid MCP tool name: mcp__a (expected mcp__<server>__<tool>)"
    );
    assert!(split_tool_name("xcp__a__b").is_err());
    assert!(split_tool_name("mcpx__a__b").is_err());
    assert!(is_mcp_tool("mcp__db__q"));
    assert!(!is_mcp_tool("mcp_db"));
}

#[test]
fn handles_unknown_method() {
    assert_eq!(classify_method("bogus/method"), McpMethod::Unknown);
    assert_eq!(method_not_found("bogus/method"), (-32601, "method not found: bogus/method".to_string()));
}

#[test]
fn classifies_protocol_methods() {
    assert_eq!(classify_method("initialize"), McpMethod::Initialize);
    assert_eq!(classify_method("notifications/initialized"), McpMethod::Initialized);
    assert_eq!(classify_method("tools/list"), McpMethod::ToolsList);
    assert_eq!(classify_method("tools/call"), McpMethod::ToolsCall);
}
