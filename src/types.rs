use vstd::prelude::*;
use vstd::string::StringExecFns;

verus! {

/// One environment variable handed to a spawned server process.
#[derive(Debug, Clone, PartialEq, Eq)]
pub struct McpEnvVar {
    pub name: String,
    pub value: String,
}

/// One header sent with every request to an HTTP or SSE server.
#[derive(Debug, Clone, PartialEq, Eq)]
pub struct McpHttpHeader {
    pub name: String,
    pub value: String,
}

/// How to reach one server; the variant alone decides the transport.
#[derive(Debug, Clone, PartialEq, Eq)]
pub enum McpServerConfig {
    Stdio {
        name: String,
        description: Option<String>,
        command: String,
        args: Vec<String>,
        env: Vec<McpEnvVar>,
    },
    Http { name: String, description: Option<String>, url: String, headers: Vec<McpHttpHeader> },
    Sse { name: String, description: Option<String>, url: String, headers: Vec<McpHttpHeader> },
}

/// A copy of an optional text.
pub fn clone_opt_string(s: &Option<String>) -> (r: Option<String>)
    ensures
        r == *s,
{
    match s {
        Some(t) => Some(t.clone()),
        None => None,
    }
}

/// A tool offered by a server; its name is unique within that server.
#[derive(Debug, PartialEq)]
pub struct McpTool {
    pub name: String,
    pub description: Option<String>,
    pub input_schema: Option<serde_json::Value>,
}

impl Clone for McpTool {
    fn clone(&self) -> (r: Self)
        ensures
            r == *self,
    {
        let input_schema = match &self.input_schema {
            Some(v) => Some(v.clone()),
            None => None,
        };
        McpTool {
            name: self.name.clone(),
            description: clone_opt_string(&self.description),
            input_schema,
        }
    }
}

/// A resource offered by a server.
#[derive(Debug, PartialEq, Eq)]
pub struct McpResource {
    pub uri: String,
    pub name: String,
    pub description: Option<String>,
    pub mime_type: Option<String>,
}

impl Clone for McpResource {
    fn clone(&self) -> (r: Self)
        ensures
            r == *self,
    {
        McpResource {
            uri: self.uri.clone(),
            name: self.name.clone(),
            description: clone_opt_string(&self.description),
            mime_type: clone_opt_string(&self.mime_type),
        }
    }
}

/// One argument that a prompt takes.
#[derive(Debug, PartialEq, Eq)]
pub struct McpPromptArgument {
    pub name: String,
    pub description: Option<String>,
    pub required: bool,
}

impl McpPromptArgument {
    /// An argument as a server describes it; an unstated `required` means not required.
    pub fn new(name: String, description: Option<String>, required: Option<bool>) -> (r: Self)
        ensures
            r.name == name,
            r.description == description,
            r.required == (required == Some(true)),
    {
        let required = match required {
            Some(b) => b,
            None => false,
        };
        McpPromptArgument { name, description, required }
    }
}

impl Clone for McpPromptArgument {
    fn clone(&self) -> (r: Self)
        ensures
            r == *self,
    {
        McpPromptArgument {
            name: self.name.clone(),
            description: clone_opt_string(&self.description),
            required: self.required,
        }
    }
}

/// A prompt template offered by a server.
#[derive(Debug, PartialEq, Eq)]
pub struct McpPrompt {
    pub name: String,
    pub description: Option<String>,
    pub arguments: Vec<McpPromptArgument>,
}

impl View for McpPrompt {
    type V = (String, Option<String>, Seq<McpPromptArgument>);

    open spec fn view(&self) -> (String, Option<String>, Seq<McpPromptArgument>) {
        (self.name, self.description, self.arguments@)
    }
}

impl Clone for McpPrompt {
    fn clone(&self) -> (r: Self)
        ensures
            r@ == self@,
    {
        let mut arguments: Vec<McpPromptArgument> = Vec::new();
        let mut i: usize = 0;
        while i < self.arguments.len()
            invariant
                i <= self.arguments@.len(),
                arguments@ == self.arguments@.subrange(0, i as int),
            decreases self.arguments@.len() - i,
        {
            arguments.push(self.arguments[i].clone());
            i = i + 1;
            assert(arguments@ =~= self.arguments@.subrange(0, i as int));
        }
        assert(arguments@ =~= self.arguments@);
        McpPrompt {
            name: self.name.clone(),
            description: clone_opt_string(&self.description),
            arguments,
        }
    }
}

/// A request to run one tool of one server.
#[derive(Debug, PartialEq)]
pub struct McpToolCallRequest {
    pub server_id: String,
    pub tool_name: String,
    pub arguments: Option<serde_json::Value>,
}

/// One item of what a tool returned.
#[derive(Debug, PartialEq, Eq)]
#[allow(inconsistent_fields)]
pub enum McpContentItem {
    Text { text: String },
    Resource { uri: String, mime_type: Option<String> },
    Image { data: String, mime_type: String },
}

/// What a tool call returned; `is_error` is set when the tool itself reported failure.
#[derive(Debug, PartialEq, Eq)]
pub struct McpToolCallResponse {
    pub content: Vec<McpContentItem>,
    pub is_error: bool,
}

/// A request to read one resource of one server.
#[derive(Debug, PartialEq, Eq)]
pub struct McpResourceReadRequest {
    pub server_id: String,
    pub uri: String,
}

/// One part of a resource's contents.
#[derive(Debug, PartialEq, Eq)]
#[allow(inconsistent_fields)]
pub enum McpResourceContent {
    Text { uri: String, text: String, mime_type: Option<String> },
    Blob { uri: String, blob: String, mime_type: String },
}

/// The contents of a resource.
#[derive(Debug, PartialEq, Eq)]
pub struct McpResourceReadResponse {
    pub contents: Vec<McpResourceContent>,
}

/// A request to render one prompt of one server.
#[derive(Debug, PartialEq)]
pub struct McpPromptGetRequest {
    pub server_id: String,
    pub name: String,
    pub arguments: Option<serde_json::Value>,
}

/// The content of one prompt message; embedded resources and links both become `Resource`.
#[derive(Debug, PartialEq, Eq)]
pub enum McpPromptContent {
    Text { text: String },
    Image { data: String, mime_type: String },
    Resource { uri: String },
}

/// One message of a rendered prompt; `role` is `"user"` or `"assistant"`.
#[derive(Debug, PartialEq, Eq)]
pub struct McpPromptMessage {
    pub role: String,
    pub content: McpPromptContent,
}

/// A rendered prompt.
#[derive(Debug, PartialEq, Eq)]
pub struct McpPromptGetResponse {
    pub messages: Vec<McpPromptMessage>,
}

/// Everything that can go wrong, each with a detail text fit for display.
#[derive(Debug, PartialEq, Eq)]
pub enum McpError {
    ServerNotFound(String),
    TransportError(String),
    ProtocolError(String),
    ToolExecutionError(String),
    ConnectionTimeout,
    InvalidConfig(String),
    IoError(String),
    JsonError(String),
    ReqwestError(String),
}

/// The text under which an error is shown.
pub open spec fn error_message(e: McpError) -> Seq<char> {
    match e {
        McpError::ServerNotFound(d) => "Server not found: "@ + d@,
        McpError::TransportError(d) => "Transport error: "@ + d@,
        McpError::ProtocolError(d) => "Protocol error: "@ + d@,
        McpError::ToolExecutionError(d) => "Tool execution error: "@ + d@,
        McpError::ConnectionTimeout => "Connection timeout"@,
        McpError::InvalidConfig(d) => "Invalid configuration: "@ + d@,
        McpError::IoError(d) => "IO error: "@ + d@,
        McpError::JsonError(d) => "JSON error: "@ + d@,
        McpError::ReqwestError(d) => "Reqwest error: "@ + d@,
    }
}

/// `prefix` followed by `detail`.
pub fn prefixed(prefix: &str, detail: &str) -> (r: String)
    ensures
        r@ == prefix@ + detail@,
{
    let mut s = String::from_str(prefix);
    s.append(detail);
    s
}

impl McpError {
    /// The text under which the error is shown.
    pub fn message(&self) -> (r: String)
        ensures
            r@ == error_message(*self),
    {
        match self {
            McpError::ServerNotFound(d) => prefixed("Server not found: ", d.as_str()),
            McpError::TransportError(d) => prefixed("Transport error: ", d.as_str()),
            McpError::ProtocolError(d) => prefixed("Protocol error: ", d.as_str()),
            McpError::ToolExecutionError(d) => prefixed("Tool execution error: ", d.as_str()),
            McpError::ConnectionTimeout => String::from_str("Connection timeout"),
            McpError::InvalidConfig(d) => prefixed("Invalid configuration: ", d.as_str()),
            McpError::IoError(d) => prefixed("IO error: ", d.as_str()),
            McpError::JsonError(d) => prefixed("JSON error: ", d.as_str()),
            McpError::ReqwestError(d) => prefixed("Reqwest error: ", d.as_str()),
        }
    }
}

} // verus!
