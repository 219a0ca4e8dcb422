use mcp_registry::logs::{McpLogEntry, McpLogLevel, MAX_LOG_ENTRIES};
use mcp_registry::registry::{McpManager, ServerInfo};
use mcp_registry::types::{
    McpError, McpPrompt, McpPromptArgument, McpPromptGetRequest, McpResource,
    McpResourceReadRequest, McpServerConfig, McpTool, McpToolCallRequest,
};

fn stdio_config(command: &str) -> McpServerConfig {
    McpServerConfig::Stdio {
        name: command.to_string(),
        description: None,
        command: command.to_string(),
        args: vec![],
        env: vec![],
    }
}

fn tool(name: &str) -> McpTool {
    McpTool { name: name.to_string(), description: None, input_schema: None }
}

fn resource(uri: &str) -> McpResource {
    McpResource { uri: uri.to_string(), name: uri.to_string(), description: None, mime_type: None }
}

fn info(tools: Vec<McpTool>, service: u32) -> ServerInfo<u32> {
    ServerInfo::new(stdio_config("srv"), tools, vec![], vec![], service)
}

fn entry(n: i64) -> McpLogEntry {
    McpLogEntry { timestamp: n, level: McpLogLevel::Info, message: format!("line {}", n) }
}

#[test]
fn stop_unregistered_server_is_noop() {
    let mut m: McpManager<u32> = McpManager::new();
    assert!(m.stop_server("nope").is_none());
    m.insert_server("a".to_string(), info(vec![tool("t")], 1));
    assert!(m.stop_server("nope").is_none());
    assert_eq!(m.list_servers(), vec!["a".to_string()]);
    assert!(m.stop_server("nope").is_none());
    assert_eq!(m.list_servers(), vec!["a".to_string()]);
}

#[test]
fn listed_until_stopped() {
    let mut m: McpManager<u32> = McpManager::new();
    m.insert_server("a".to_string(), info(vec![], 1));
    m.insert_server("b".to_string(), info(vec![], 2));
    assert_eq!(m.list_servers(), vec!["a".to_string(), "b".to_string()]);
    let removed = m.stop_server("b").expect("b was registered");
    assert_eq!(removed.service, 2);
    assert_eq!(m.list_servers(), vec!["a".to_string()]);
    m.stop_server("a");
    assert!(m.list_servers().is_empty());
    m.insert_server("c".to_string(), info(vec![], 3));
    m.insert_server("d".to_string(), info(vec![], 4));
    let ids = m.stop_all();
    assert_eq!(ids, vec!["c".to_string(), "d".to_string()]);
    assert!(m.list_servers().is_empty());
}

#[test]
fn reregistering_replaces_the_old_entry() {
    let mut m: McpManager<u32> = McpManager::new();
    m.insert_server("a".to_string(), info(vec![tool("old")], 1));
    m.insert_server("b".to_string(), info(vec![], 2));
    let replaced = m.insert_server("a".to_string(), info(vec![tool("new")], 3));
    assert_eq!(replaced.map(|i| i.service), Some(1));
    assert_eq!(m.list_servers(), vec!["b".to_string(), "a".to_string()]);
    assert_eq!(m.list_tools(), vec![tool("new")]);
}

#[test]
fn log_buffer_evicts_oldest_after_capacity() {
    let mut m: McpManager<u32> = McpManager::new();
    m.insert_server("a".to_string(), info(vec![], 1));
    for n in 1..=1001 {
        assert!(m.add_log_entry("a", entry(n)));
    }
    let logs = m.get_server_logs("a").unwrap();
    assert_eq!(logs.len(), MAX_LOG_ENTRIES);
    assert_eq!(logs.len(), 1000);
    assert_eq!(logs[0].timestamp, 2);
    assert_eq!(logs[999].timestamp, 1001);
    assert_eq!(logs[999].message, "line 1001");
}

#[test]
fn log_buffer_below_capacity_keeps_all() {
    let mut m: McpManager<u32> = McpManager::new();
    m.insert_server("a".to_string(), info(vec![], 1));
    for n in 1..=3 {
        m.add_log_entry("a", entry(n));
    }
    let logs = m.get_server_logs("a").unwrap();
    let stamps: Vec<i64> = logs.iter().map(|e| e.timestamp).collect();
    assert_eq!(stamps, vec![1, 2, 3]);
}

#[test]
fn log_for_unknown_server_is_dropped() {
    let mut m: McpManager<u32> = McpManager::new();
    assert!(!m.add_log_entry("ghost", entry(1)));
    assert_eq!(m.get_server_logs("ghost"), Err(McpError::ServerNotFound("ghost".to_string())));
}

#[test]
fn listings_aggregate_connected_servers() {
    let mut m: McpManager<u32> = McpManager::new();
    let prompt = McpPrompt {
        name: "greet".to_string(),
        description: Some("says hello".to_string()),
        arguments: vec![McpPromptArgument::new("who".to_string(), None, Some(true))],
    };
    m.insert_server(
        "a".to_string(),
        ServerInfo::new(stdio_config("a"), vec![tool("t1"), tool("t2")], vec![resource("file:///x")], vec![], 1),
    );
    m.insert_server(
        "b".to_string(),
        ServerInfo::new(stdio_config("b"), vec![tool("t3")], vec![], vec![prompt.clone()], 2),
    );
    assert_eq!(m.list_tools(), vec![tool("t1"), tool("t2"), tool("t3")]);
    assert_eq!(m.list_resources(), vec![resource("file:///x")]);
    assert_eq!(m.list_prompts(), vec![prompt]);
}

#[test]
fn disconnected_server_is_not_listed_or_invoked() {
    let mut m: McpManager<u32> = McpManager::new();
    let mut i = info(vec![tool("t1")], 1);
    i.is_connected = false;
    m.insert_server("a".to_string(), i);
    assert!(m.list_tools().is_empty());
    let req = McpToolCallRequest { server_id: "a".to_string(), tool_name: "t1".to_string(), arguments: None };
    match m.prepare_call_tool(req) {
        Err(McpError::ServerNotFound(d)) => assert_eq!(d, "Server a is not connected"),
        _ => panic!("expected ServerNotFound"),
    }
}

#[test]
fn call_tool_on_missing_server() {
    let m: McpManager<u32> = McpManager::new();
    let req = McpToolCallRequest {
        server_id: "missing".to_string(),
        tool_name: "ping".to_string(),
        arguments: None,
    };
    match m.prepare_call_tool(req) {
        Err(e) => assert_eq!(e, McpError::ServerNotFound("missing".to_string())),
        Ok(_) => panic!("expected an error"),
    }
}

#[test]
fn call_tool_wraps_scalar_argument() {
    let mut m: McpManager<u32> = McpManager::new();
    m.insert_server("a".to_string(), info(vec![tool("t")], 7));
    let req = McpToolCallRequest {
        server_id: "a".to_string(),
        tool_name: "t".to_string(),
        arguments: Some(serde_json::Value::from(42)),
    };
    let (service, call) = m.prepare_call_tool(req).unwrap();
    assert_eq!(*service, 7);
    assert_eq!(call.tool_name, "t");
    let mut expected = serde_json::Map::new();
    expected.insert("value".to_string(), serde_json::Value::from(42));
    assert_eq!(call.arguments, Some(expected));
}

#[test]
fn read_resource_and_get_prompt_find_the_connection() {
    let mut m: McpManager<u32> = McpManager::new();
    m.insert_server("a".to_string(), info(vec![], 5));
    let (service, uri) = m
        .prepare_read_resource(McpResourceReadRequest { server_id: "a".to_string(), uri: "file:///r".to_string() })
        .unwrap();
    assert_eq!((*service, uri.as_str()), (5, "file:///r"));
    let (service, call) = m
        .prepare_get_prompt(McpPromptGetRequest {
            server_id: "a".to_string(),
            name: "greet".to_string(),
            arguments: Some(serde_json::Value::from("not an object")),
        })
        .unwrap();
    assert_eq!(*service, 5);
    assert_eq!(call.name, "greet");
    assert!(call.arguments.is_none());
    let missing = m.prepare_read_resource(McpResourceReadRequest { server_id: "zz".to_string(), uri: "u".to_string() });
    assert_eq!(missing.err(), Some(McpError::ServerNotFound("zz".to_string())));
}

#[test]
fn error_messages() {
    assert_eq!(McpError::ServerNotFound("x".to_string()).message(), "Server not found: x");
    assert_eq!(McpError::ConnectionTimeout.message(), "Connection timeout");
    assert_eq!(McpError::InvalidConfig("bad".to_string()).message(), "Invalid configuration: bad");
    assert_eq!(McpError::ToolExecutionError("boom".to_string()).message(), "Tool execution error: boom");
}

#[test]
fn log_buffer_at_capacity_keeps_first_entry() {
    let mut m: McpManager<u32> = McpManager::new();
    m.insert_server("a".to_string(), info(vec![], 1));
    for n in 1..=1000 {
        m.add_log_entry("a", entry(n));
    }
    let logs = m.get_server_logs("a").unwrap();
    assert_eq!(logs.len(), 1000);
    assert_eq!(logs[0].timestamp, 1);
    assert_eq!(logs[999].timestamp, 1000);
}

#[test]
fn logs_of_other_servers_are_untouched() {
    let mut m: McpManager<u32> = McpManager::new();
    m.insert_server("a".to_string(), info(vec![], 1));
    m.insert_server("b".to_string(), info(vec![], 2));
    m.add_log_entry("a", entry(1));
    assert_eq!(m.get_server_logs("b").unwrap().len(), 0);
    assert_eq!(m.get_server_logs("a").unwrap().len(), 1);
    assert_eq!(m.list_servers(), vec!["a".to_string(), "b".to_string()]);
}

#[test]
fn remaining_error_messages() {
    assert_eq!(McpError::TransportError("t".to_string()).message(), "Transport error: t");
    assert_eq!(McpError::ProtocolError("p".to_string()).message(), "Protocol error: p");
    assert_eq!(McpError::IoError("i".to_string()).message(), "IO error: i");
    assert_eq!(McpError::JsonError("j".to_string()).message(), "JSON error: j");
    assert_eq!(McpError::ReqwestError("r".to_string()).message(), "Reqwest error: r");
}
