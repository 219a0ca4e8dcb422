use crate::registry::ServerInfo;
use crate::transport::{
    all_headers_ok, first_bad_header, header_problem, plan_transport, sse_unsupported,
    TransportKind,
};
use crate::types::{prefixed, McpError, McpPrompt, McpResource, McpServerConfig, McpTool};
use vstd::prelude::*;

verus! {

/// The listing categories a server advertised during the handshake.
#[derive(Debug, Clone, Copy, PartialEq, Eq, Structural)]
pub struct ServerCapabilities {
    pub tools: bool,
    pub resources: bool,
    pub prompts: bool,
}

/// Where a start sequence stands.
#[derive(Debug, Clone, Copy, PartialEq, Eq, Structural)]
pub enum StartStep {
    Transport,
    Handshake,
    ListTools,
    ListResources,
    ListPrompts,
    Ready,
    Failed,
}

/// The outside work that a start sequence asks for next.
#[derive(Debug, Clone, Copy, PartialEq, Eq, Structural)]
pub enum StartAction {
    /// Build the channel of this kind from the configuration.
    CreateTransport(TransportKind),
    /// Run the protocol handshake over the channel.
    Handshake,
    ListTools,
    ListResources,
    ListPrompts,
    /// Done: register the record (see `StartSession::register`).
    Register,
    /// Given up: report the error (see `StartSession::into_error`).
    Fail,
}

/// What came of the outside work.
#[derive(Debug)]
pub enum StartEvent {
    TransportCreated,
    TransportFailed(String),
    HandshakeDone(ServerCapabilities),
    HandshakeFailed(String),
    ToolsListed(Vec<McpTool>),
    ResourcesListed(Vec<McpResource>),
    PromptsListed(Vec<McpPrompt>),
    ListingFailed(String),
}

/// The transport that `config` is served over, when it can be served.
pub open spec fn planned_kind(config: McpServerConfig) -> Option<TransportKind> {
    match config {
        McpServerConfig::Stdio { .. } => Some(TransportKind::Stdio),
        McpServerConfig::Http { headers, .. } => if all_headers_ok(headers@) {
            Some(TransportKind::Http)
        } else {
            None
        },
        McpServerConfig::Sse { .. } => None,
    }
}

/// `e` is the error for a configuration that cannot be served.
pub open spec fn is_plan_error(config: McpServerConfig, e: McpError) -> bool {
    match config {
        McpServerConfig::Http { headers, .. } => e matches McpError::TransportError(d) && d@
            == header_problem(headers@[first_bad_header(headers@)]),
        McpServerConfig::Sse { .. } => e matches McpError::InvalidConfig(d) && d@ == sse_unsupported(),
        McpServerConfig::Stdio { .. } => false,
    }
}

/// The first listing to fetch among those from `from` on (tools, resources, prompts, in
/// that order) that `caps` advertises; `Ready` when none is left.
pub open spec fn next_listing(caps: ServerCapabilities, from: StartStep) -> StartStep {
    if from == StartStep::ListTools && caps.tools {
        StartStep::ListTools
    } else if (from == StartStep::ListTools || from == StartStep::ListResources) && caps.resources {
        StartStep::ListResources
    } else if caps.prompts && from != StartStep::Ready {
        StartStep::ListPrompts
    } else {
        StartStep::Ready
    }
}

/// What a sequence at `step` over a channel of `kind` asks for.
pub open spec fn action_for(step: StartStep, kind: TransportKind) -> StartAction {
    match step {
        StartStep::Transport => StartAction::CreateTransport(kind),
        StartStep::Handshake => StartAction::Handshake,
        StartStep::ListTools => StartAction::ListTools,
        StartStep::ListResources => StartAction::ListResources,
        StartStep::ListPrompts => StartAction::ListPrompts,
        StartStep::Ready => StartAction::Register,
        StartStep::Failed => StartAction::Fail,
    }
}

/// How a failed handshake over a channel of `kind` is introduced in the error text.
pub open spec fn handshake_failure_prefix(kind: TransportKind) -> Seq<char> {
    match kind {
        TransportKind::Stdio => "Failed to connect stdio: "@,
        TransportKind::Http => "Failed to connect HTTP: "@,
    }
}

/// A listing category is fetched only when it was advertised: from any step, the next
/// listing step is one whose capability is set.
pub proof fn lemma_listing_needs_capability(caps: ServerCapabilities, from: StartStep)
    ensures
        next_listing(caps, from) == StartStep::ListTools ==> caps.tools,
        next_listing(caps, from) == StartStep::ListResources ==> caps.resources,
        next_listing(caps, from) == StartStep::ListPrompts ==> caps.prompts,
{
}

/// The decisions of starting one server: build the channel, shake hands, fetch the listings
/// that the server advertised (and only those), then register. Each failure is final.
pub struct StartSession {
    server_id: String,
    config: McpServerConfig,
    kind: TransportKind,
    step: StartStep,
    capabilities: ServerCapabilities,
    tools: Vec<McpTool>,
    resources: Vec<McpResource>,
    prompts: Vec<McpPrompt>,
    error: Option<McpError>,
}

impl StartSession {
    /// Nothing is fetched that was not advertised, nothing is held that was not fetched,
    /// and an error is held exactly when the sequence has failed.
    #[verifier::type_invariant]
    spec fn gated(self) -> bool {
        &&& self.step == StartStep::ListTools ==> self.capabilities.tools
        &&& self.step == StartStep::ListResources ==> self.capabilities.resources
        &&& self.step == StartStep::ListPrompts ==> self.capabilities.prompts
        &&& !self.capabilities.tools ==> self.tools@.len() == 0
        &&& !self.capabilities.resources ==> self.resources@.len() == 0
        &&& !self.capabilities.prompts ==> self.prompts@.len() == 0
        &&& (self.step == StartStep::Failed <==> self.error is Some)
    }

    pub closed spec fn server_id(self) -> String {
        self.server_id
    }

    pub closed spec fn config(self) -> McpServerConfig {
        self.config
    }

    pub closed spec fn kind(self) -> TransportKind {
        self.kind
    }

    pub closed spec fn step(self) -> StartStep {
        self.step
    }

    pub closed spec fn capabilities(self) -> ServerCapabilities {
        self.capabilities
    }

    pub closed spec fn tools(self) -> Seq<McpTool> {
        self.tools@
    }

    pub closed spec fn resources(self) -> Seq<McpResource> {
        self.resources@
    }

    pub closed spec fn prompts(self) -> Seq<McpPrompt> {
        self.prompts@
    }

    pub closed spec fn error(self) -> Option<McpError> {
        self.error
    }

    /// Begins starting `server_id` with `config`. A configuration that cannot be served
    /// (an SSE server, a header that does not parse) fails at once.
    pub fn new(server_id: String, config: McpServerConfig) -> (r: Self)
        ensures
            r.server_id() == server_id,
            r.config() == config,
            r.capabilities() == (ServerCapabilities { tools: false, resources: false, prompts: false }),
            match planned_kind(config) {
                Some(k) => r.step() == StartStep::Transport && r.kind() == k,
                None => r.step() == StartStep::Failed && is_plan_error(config, r.error().unwrap()),
            },
    {
        let planned = plan_transport(&config);
        let (kind, step, error) = match planned {
            Ok(k) => (k, StartStep::Transport, None),
            Err(e) => (TransportKind::Stdio, StartStep::Failed, Some(e)),
        };
        StartSession {
            server_id,
            config,
            kind,
            step,
            capabilities: ServerCapabilities { tools: false, resources: false, prompts: false },
            tools: Vec::new(),
            resources: Vec::new(),
            prompts: Vec::new(),
            error,
        }
    }

    /// The outside work to do next. A listing is asked for only when the server advertised
    /// that category.
    pub fn next_action(&self) -> (a: StartAction)
        ensures
            a == action_for(self.step(), self.kind()),
            a == StartAction::ListTools ==> self.capabilities().tools,
            a == StartAction::ListResources ==> self.capabilities().resources,
            a == StartAction::ListPrompts ==> self.capabilities().prompts,
    {
        proof {
            use_type_invariant(self);
        }
        match self.step {
            StartStep::Transport => StartAction::CreateTransport(self.kind),
            StartStep::Handshake => StartAction::Handshake,
            StartStep::ListTools => StartAction::ListTools,
            StartStep::ListResources => StartAction::ListResources,
            StartStep::ListPrompts => StartAction::ListPrompts,
            StartStep::Ready => StartAction::Register,
            StartStep::Failed => StartAction::Fail,
        }
    }

    fn failed(self, e: McpError) -> (r: Self)
        ensures
            r.step() == StartStep::Failed,
            r.error() == Some(e),
            r.server_id() == self.server_id(),
            r.config() == self.config(),
            r.kind() == self.kind(),
            r.capabilities() == self.capabilities(),
            r.tools() == self.tools(),
            r.resources() == self.resources(),
            r.prompts() == self.prompts(),
    {
        proof {
            use_type_invariant(&self);
        }
        let StartSession { server_id, config, kind, capabilities, tools, resources, prompts, .. } = self;
        StartSession { server_id, config, kind, step: StartStep::Failed, capabilities, tools, resources, prompts, error: Some(e) }
    }

    /// Takes in what came of the work that `next_action` asked for. An event that does not
    /// answer the current step leaves the sequence as it is.
    pub fn on_event(self, event: StartEvent) -> (r: Self)
        ensures
            r.server_id() == self.server_id(),
            r.config() == self.config(),
            r.kind() == self.kind(),
            match (self.step(), event) {
                (StartStep::Transport, StartEvent::TransportCreated) => r.step() == StartStep::Handshake
                    && r.capabilities() == self.capabilities() && r.error() is None,
                (StartStep::Transport, StartEvent::TransportFailed(d)) => r.step() == StartStep::Failed
                    && (r.error() matches Some(McpError::TransportError(m)) && m@ == d@),
                (StartStep::Handshake, StartEvent::HandshakeDone(caps)) => r.capabilities() == caps
                    && r.step() == next_listing(caps, StartStep::ListTools)
                    && r.tools().len() == 0 && r.resources().len() == 0 && r.prompts().len() == 0
                    && r.error() is None,
                (StartStep::Handshake, StartEvent::HandshakeFailed(d)) => r.step() == StartStep::Failed
                    && (r.error() matches Some(McpError::ProtocolError(m)) && m@ == handshake_failure_prefix(self.kind()) + d@),
                (StartStep::ListTools, StartEvent::ToolsListed(v)) => r.tools() == v@
                    && r.resources() == self.resources() && r.prompts() == self.prompts()
                    && r.capabilities() == self.capabilities()
                    && r.step() == next_listing(self.capabilities(), StartStep::ListResources)
                    && r.error() is None,
                (StartStep::ListResources, StartEvent::ResourcesListed(v)) => r.resources() == v@
                    && r.tools() == self.tools() && r.prompts() == self.prompts()
                    && r.capabilities() == self.capabilities()
                    && r.step() == next_listing(self.capabilities(), StartStep::ListPrompts)
                    && r.error() is None,
                (StartStep::ListPrompts, StartEvent::PromptsListed(v)) => r.prompts() == v@
                    && r.tools() == self.tools() && r.resources() == self.resources()
                    && r.capabilities() == self.capabilities() && r.step() == StartStep::Ready
                    && r.error() is None,
                (StartStep::ListTools, StartEvent::ListingFailed(d)) => r.step() == StartStep::Failed
                    && (r.error() matches Some(McpError::ProtocolError(m)) && m@ == "Failed to list tools: "@ + d@),
                (StartStep::ListResources, StartEvent::ListingFailed(d)) => r.step() == StartStep::Failed
                    && (r.error() matches Some(McpError::ProtocolError(m)) && m@ == "Failed to list resources: "@ + d@),
                (StartStep::ListPrompts, StartEvent::ListingFailed(d)) => r.step() == StartStep::Failed
                    && (r.error() matches Some(McpError::ProtocolError(m)) && m@ == "Failed to list prompts: "@ + d@),
                _ => r == self,
            },
    {
        proof {
            use_type_invariant(&self);
        }
        match (self.step, event) {
            (StartStep::Transport, StartEvent::TransportCreated) => {
                let StartSession { server_id, config, kind, capabilities, tools, resources, prompts, error, .. } = self;
                StartSession { server_id, config, kind, step: StartStep::Handshake, capabilities, tools, resources, prompts, error }
            },
            (StartStep::Transport, StartEvent::TransportFailed(d)) => self.failed(McpError::TransportError(d)),
            (StartStep::Handshake, StartEvent::HandshakeDone(caps)) => {
                let StartSession { server_id, config, kind, error, .. } = self;
                let step = if caps.tools {
                    StartStep::ListTools
                } else if caps.resources {
                    StartStep::ListResources
                } else if caps.prompts {
                    StartStep::ListPrompts
                } else {
                    StartStep::Ready
                };
                StartSession {
                    server_id,
                    config,
                    kind,
                    step,
                    capabilities: caps,
                    tools: Vec::new(),
                    resources: Vec::new(),
                    prompts: Vec::new(),
                    error,
                }
            },
            (StartStep::Handshake, StartEvent::HandshakeFailed(d)) => {
                let prefix = match self.kind {
                    TransportKind::Stdio => "Failed to connect stdio: ",
                    TransportKind::Http => "Failed to connect HTTP: ",
                };
                let m = prefixed(prefix, d.as_str());
                self.failed(McpError::ProtocolError(m))
            },
            (StartStep::ListTools, StartEvent::ToolsListed(v)) => {
                let StartSession { server_id, config, kind, capabilities, resources, prompts, error, .. } = self;
                let step = if capabilities.resources {
                    StartStep::ListResources
                } else if capabilities.prompts {
                    StartStep::ListPrompts
                } else {
                    StartStep::Ready
                };
                StartSession { server_id, config, kind, step, capabilities, tools: v, resources, prompts, error }
            },
            (StartStep::ListResources, StartEvent::ResourcesListed(v)) => {
                let StartSession { server_id, config, kind, capabilities, tools, prompts, error, .. } = self;
                let step = if capabilities.prompts {
                    StartStep::ListPrompts
                } else {
                    StartStep::Ready
                };
                StartSession { server_id, config, kind, step, capabilities, tools, resources: v, prompts, error }
            },
            (StartStep::ListPrompts, StartEvent::PromptsListed(v)) => {
                let StartSession { server_id, config, kind, capabilities, tools, resources, error, .. } = self;
                StartSession { server_id, config, kind, step: StartStep::Ready, capabilities, tools, resources, prompts: v, error }
            },
            (StartStep::ListTools, StartEvent::ListingFailed(d)) => {
                self.failed(McpError::ProtocolError(prefixed("Failed to list tools: ", d.as_str())))
            },
            (StartStep::ListResources, StartEvent::ListingFailed(d)) => {
                self.failed(McpError::ProtocolError(prefixed("Failed to list resources: ", d.as_str())))
            },
            (StartStep::ListPrompts, StartEvent::ListingFailed(d)) => {
                self.failed(McpError::ProtocolError(prefixed("Failed to list prompts: ", d.as_str())))
            },
            _ => self,
        }
    }

    /// The record to register once every advertised listing has been fetched; a category
    /// that was not advertised is empty in it.
    pub fn register<C>(self, service: C) -> (r: (String, ServerInfo<C>))
        requires
            self.step() == StartStep::Ready,
        ensures
            r.0 == self.server_id(),
            r.1.config == self.config(),
            r.1.tools@ == self.tools(),
            r.1.resources@ == self.resources(),
            r.1.prompts@ == self.prompts(),
            r.1.service == service,
            r.1.is_connected,
            r.1.logs@.len() == 0,
            !self.capabilities().tools ==> r.1.tools@.len() == 0,
            !self.capabilities().resources ==> r.1.resources@.len() == 0,
            !self.capabilities().prompts ==> r.1.prompts@.len() == 0,
    {
        proof {
            use_type_invariant(&self);
        }
        let StartSession { server_id, config, tools, resources, prompts, .. } = self;
        (server_id, ServerInfo::new(config, tools, resources, prompts, service))
    }

    /// The error that ended a failed sequence.
    pub fn into_error(self) -> (e: McpError)
        requires
            self.step() == StartStep::Failed,
        ensures
            self.error() == Some(e),
    {
        proof {
            use_type_invariant(&self);
        }
        let StartSession { error, .. } = self;
        error.unwrap()
    }
}

} // verus!
