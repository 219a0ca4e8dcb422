use mcp_registry::batch::record_start;
use mcp_registry::convert::{tool_call_outcome, RemoteContent, RemoteToolResult};
use mcp_registry::registry::McpManager;
use mcp_registry::session::{ServerCapabilities, StartAction, StartEvent, StartSession};
use mcp_registry::transport::{plan_transport, TransportKind};
use mcp_registry::types::{
    McpContentItem, McpError, McpHttpHeader, McpResource, McpServerConfig, McpTool,
    McpToolCallRequest,
};

fn stdio(command: &str) -> McpServerConfig {
    McpServerConfig::Stdio {
        name: command.to_string(),
        description: None,
        command: command.to_string(),
        args: vec![],
        env: vec![],
    }
}

fn http(headers: Vec<(&str, &str)>) -> McpServerConfig {
    McpServerConfig::Http {
        name: "h".to_string(),
        description: None,
        url: "http://x".to_string(),
        headers: headers
            .into_iter()
            .map(|(n, v)| McpHttpHeader { name: n.to_string(), value: v.to_string() })
            .collect(),
    }
}

fn caps(tools: bool, resources: bool, prompts: bool) -> ServerCapabilities {
    ServerCapabilities { tools, resources, prompts }
}

#[test]
fn echo_tool_server_scenario() {
    let mut s = StartSession::new("a".to_string(), stdio("echo-tool-server"));
    assert_eq!(s.next_action(), StartAction::CreateTransport(TransportKind::Stdio));
    s = s.on_event(StartEvent::TransportCreated);
    assert_eq!(s.next_action(), StartAction::Handshake);
    s = s.on_event(StartEvent::HandshakeDone(caps(true, false, false)));
    assert_eq!(s.next_action(), StartAction::ListTools);
    let ping = McpTool { name: "ping".to_string(), description: None, input_schema: None };
    s = s.on_event(StartEvent::ToolsListed(vec![ping.clone()]));
    assert_eq!(s.next_action(), StartAction::Register);
    let (id, info) = s.register(0u32);
    let started: Vec<String> = info.tools.iter().map(|t| t.name.clone()).collect();
    assert_eq!(started, vec!["ping".to_string()]);
    let mut m: McpManager<u32> = McpManager::new();
    m.insert_server(id, info);
    assert!(m.list_tools().contains(&ping));
    let req = McpToolCallRequest { server_id: "a".to_string(), tool_name: "ping".to_string(), arguments: None };
    let (_, call) = m.prepare_call_tool(req).unwrap();
    assert_eq!(call.tool_name, "ping");
    assert!(call.arguments.is_none());
    let reply = RemoteToolResult {
        content: vec![RemoteContent::Text { text: "pong".to_string() }],
        is_error: None,
    };
    let resp = tool_call_outcome(Ok(reply)).unwrap();
    assert_eq!(resp.content, vec![McpContentItem::Text { text: "pong".to_string() }]);
    assert!(!resp.is_error);
}

#[test]
fn sse_server_is_refused() {
    let config = McpServerConfig::Sse {
        name: "b".to_string(),
        description: None,
        url: "http://x".to_string(),
        headers: vec![],
    };
    let s = StartSession::new("b".to_string(), config);
    assert_eq!(s.next_action(), StartAction::Fail);
    match s.into_error() {
        McpError::InvalidConfig(d) => assert!(d.contains("SSE")),
        other => panic!("unexpected {:?}", other),
    }
    let m: McpManager<u32> = McpManager::new();
    assert!(m.list_servers().is_empty());
}

#[test]
fn resources_not_listed_without_capability() {
    let mut s = StartSession::new("c".to_string(), stdio("srv"));
    s = s.on_event(StartEvent::TransportCreated);
    s = s.on_event(StartEvent::HandshakeDone(caps(true, false, true)));
    let mut actions = vec![];
    loop {
        let a = s.next_action();
        actions.push(a);
        s = match a {
            StartAction::ListTools => s.on_event(StartEvent::ToolsListed(vec![])),
            StartAction::ListPrompts => s.on_event(StartEvent::PromptsListed(vec![])),
            StartAction::ListResources => s.on_event(StartEvent::ResourcesListed(vec![McpResource {
                uri: "u".to_string(),
                name: "n".to_string(),
                description: None,
                mime_type: None,
            }])),
            _ => break,
        };
    }
    assert_eq!(actions, vec![StartAction::ListTools, StartAction::ListPrompts, StartAction::Register]);
    let (_, info) = s.register(());
    assert!(info.resources.is_empty());
}

#[test]
fn out_of_order_resource_listing_is_ignored() {
    let mut s = StartSession::new("c".to_string(), stdio("srv"));
    s = s.on_event(StartEvent::TransportCreated);
    s = s.on_event(StartEvent::HandshakeDone(caps(false, false, false)));
    assert_eq!(s.next_action(), StartAction::Register);
    s = s.on_event(StartEvent::ResourcesListed(vec![McpResource {
        uri: "u".to_string(),
        name: "n".to_string(),
        description: None,
        mime_type: None,
    }]));
    let (_, info) = s.register(());
    assert!(info.resources.is_empty());
    assert!(info.tools.is_empty());
}

#[test]
fn handshake_failure_is_a_protocol_error() {
    let mut s = StartSession::new("h".to_string(), http(vec![("Authorization", "Bearer t")]));
    assert_eq!(s.next_action(), StartAction::CreateTransport(TransportKind::Http));
    s = s.on_event(StartEvent::TransportCreated);
    s = s.on_event(StartEvent::HandshakeFailed("refused".to_string()));
    assert_eq!(s.next_action(), StartAction::Fail);
    assert_eq!(s.into_error(), McpError::ProtocolError("Failed to connect HTTP: refused".to_string()));
}

#[test]
fn transport_and_listing_failures() {
    let s = StartSession::new("x".to_string(), stdio("nope")).on_event(StartEvent::TransportFailed(
        "Failed to spawn process: not found".to_string(),
    ));
    assert_eq!(
        s.into_error(),
        McpError::TransportError("Failed to spawn process: not found".to_string())
    );
    let s = StartSession::new("x".to_string(), stdio("srv"))
        .on_event(StartEvent::TransportCreated)
        .on_event(StartEvent::HandshakeDone(caps(false, true, false)))
        .on_event(StartEvent::ListingFailed("timeout".to_string()));
    assert_eq!(s.into_error(), McpError::ProtocolError("Failed to list resources: timeout".to_string()));
}

#[test]
fn header_validation() {
    assert_eq!(plan_transport(&http(vec![("X-Token", "abc\tdef")])), Ok(TransportKind::Http));
    assert_eq!(
        plan_transport(&http(vec![("Good", "v"), ("bad name", "v")])),
        Err(McpError::TransportError("invalid HTTP header name: bad name".to_string()))
    );
    assert_eq!(
        plan_transport(&http(vec![("X-A", "line\nbreak")])),
        Err(McpError::TransportError("invalid value for HTTP header X-A".to_string()))
    );
    assert_eq!(
        plan_transport(&http(vec![("", "v")])),
        Err(McpError::TransportError("invalid HTTP header name: ".to_string()))
    );
    assert_eq!(plan_transport(&stdio("srv")), Ok(TransportKind::Stdio));
}

#[test]
fn batch_start_keeps_successes_only() {
    let mut results = vec![];
    let ok: Result<Vec<McpTool>, McpError> =
        Ok(vec![McpTool { name: "t".to_string(), description: None, input_schema: None }]);
    let failed: Result<Vec<McpTool>, McpError> = Err(McpError::ConnectionTimeout);
    record_start(&mut results, "a".to_string(), &ok);
    record_start(&mut results, "b".to_string(), &failed);
    record_start(&mut results, "c".to_string(), &Ok(vec![]));
    assert_eq!(
        results,
        vec![("a".to_string(), vec!["t".to_string()]), ("c".to_string(), vec![])]
    );
}
