use std::collections::HashMap;
use std::time::Duration;

use vstd::prelude::*;
use vstd::string::*;

use crate::json::{members_view, JsonValue, JsonView};

verus! {

/// Default per-session timeout (24 hours)
pub const DEFAULT_SESSION_TIMEOUT_MS: u64 = 24 * 60 * 60 * 1000;

/// Default control server URL (local test server)
pub const DEFAULT_CONTROL_SERVER_URL: &'static str = "http://localhost:8765";

/// Default session ingress URL (local test server)
pub const DEFAULT_INGRESS_SERVER_URL: &'static str = "ws://localhost:8765";

/// Reusable login guidance appended to bridge auth errors
pub const BRIDGE_LOGIN_INSTRUCTION: &'static str =
    "Remote Control requires valid authentication. Please configure your access token or credentials.";

/// Shown when the user disconnects Remote Control
pub const REMOTE_CONTROL_DISCONNECTED_MSG: &'static str = "Remote Control disconnected.";

// --- Protocol types for the environments API ---

#[derive(Debug, Clone, Copy, PartialEq, Eq, Structural)]
pub enum WorkDataType {
    Session,
    Healthcheck,
}

#[derive(Debug, Clone)]
pub struct WorkData {
    pub type_: WorkDataType,
    pub id: String,
}

#[derive(Debug, Clone)]
pub struct WorkResponse {
    pub id: String,
    /// always "work"
    pub type_: String,
    pub environment_id: String,
    pub state: String,
    pub data: WorkData,
    /// base64url-encoded JSON
    pub secret: String,
    pub created_at: String,
}

#[derive(Debug, Clone)]
pub struct GitInfo {
    pub type_: String,
    pub repo: String,
    pub ref_: Option<String>,
    pub token: Option<String>,
}

#[derive(Debug, Clone)]
pub struct SourceConfig {
    pub type_: String,
    pub git_info: Option<GitInfo>,
}

#[derive(Debug, Clone)]
pub struct AuthConfig {
    pub type_: String,
    pub token: String,
}

#[derive(Debug)]
pub struct WorkSecret {
    pub version: u32,
    pub session_ingress_token: String,
    pub api_base_url: String,
    pub sources: Vec<SourceConfig>,
    pub auth: Vec<AuthConfig>,
    pub claude_code_args: Option<HashMap<String, String>>,
    pub mcp_config: Option<JsonValue>,
    pub environment_variables: Option<HashMap<String, String>>,
    pub use_code_sessions: Option<bool>,
}

impl Default for GitInfo {
    fn default() -> (r: GitInfo)
        ensures
            r.type_@ == Seq::<char>::empty(),
            r.repo@ == Seq::<char>::empty(),
            r.ref_ is None,
            r.token is None,
    {
        GitInfo { type_: String::new(), repo: String::new(), ref_: None, token: None }
    }
}

impl Default for SourceConfig {
    fn default() -> (r: SourceConfig)
        ensures
            r.type_@ == Seq::<char>::empty(),
            r.git_info is None,
    {
        SourceConfig { type_: String::new(), git_info: None }
    }
}

impl Default for AuthConfig {
    fn default() -> (r: AuthConfig)
        ensures
            r.type_@ == Seq::<char>::empty(),
            r.token@ == Seq::<char>::empty(),
    {
        AuthConfig { type_: String::new(), token: String::new() }
    }
}

impl Default for WorkSecret {
    fn default() -> (r: WorkSecret)
        ensures
            r.version == 0,
            r.session_ingress_token@ == Seq::<char>::empty(),
            r.api_base_url@ == Seq::<char>::empty(),
            r.sources@.len() == 0,
            r.auth@.len() == 0,
            r.claude_code_args is None,
            r.mcp_config is None,
            r.environment_variables is None,
            r.use_code_sessions is None,
    {
        WorkSecret {
            version: 0,
            session_ingress_token: String::new(),
            api_base_url: String::new(),
            sources: Vec::new(),
            auth: Vec::new(),
            claude_code_args: None,
            mcp_config: None,
            environment_variables: None,
            use_code_sessions: None,
        }
    }
}

#[derive(Debug, Clone, Copy, PartialEq, Eq, Structural)]
pub enum SessionDoneStatus {
    Completed,
    Failed,
    Interrupted,
}

#[derive(Debug, Clone, Copy, PartialEq, Eq, Structural)]
pub enum SessionActivityType {
    ToolStart,
    Text,
    Result,
    Error,
}

#[derive(Debug, Clone)]
pub struct SessionActivity {
    pub type_: SessionActivityType,
    pub summary: String,
    pub timestamp: u64,
}

/// How the remote-control bridge chooses session working directories
#[derive(Debug, Clone, Copy, PartialEq, Eq, Structural)]
pub enum SpawnMode {
    /// One session in cwd, bridge tears down when it ends
    SingleSession,
    /// Persistent server, every session gets an isolated git worktree
    Worktree,
    /// Persistent server, every session shares cwd (can stomp each other)
    SameDir,
}

impl Default for SpawnMode {
    fn default() -> (r: SpawnMode)
        ensures
            r == SpawnMode::SameDir,
    {
        SpawnMode::SameDir
    }
}

/// Well-known worker_type values
#[derive(Debug, Clone, Copy, PartialEq, Eq, Structural)]
pub enum BridgeWorkerType {
    ClaudeCode,
    ClaudeCodeAssistant,
}

impl BridgeWorkerType {
    /// The name under which a worker type is sent.
    pub open spec fn spec_name(self) -> Seq<char> {
        match self {
            BridgeWorkerType::ClaudeCode => "claude_code"@,
            BridgeWorkerType::ClaudeCodeAssistant => "claude_code_assistant"@,
        }
    }

    pub fn to_string(&self) -> (r: String)
        ensures
            r@ == self.spec_name(),
    {
        match self {
            BridgeWorkerType::ClaudeCode => String::from_str("claude_code"),
            BridgeWorkerType::ClaudeCodeAssistant => String::from_str("claude_code_assistant"),
        }
    }
}

#[derive(Debug, Clone)]
pub struct BridgeConfig {
    pub dir: String,
    pub machine_name: String,
    pub branch: String,
    pub git_repo_url: Option<String>,
    pub max_sessions: u32,
    pub spawn_mode: SpawnMode,
    pub verbose: bool,
    pub sandbox: bool,
    /// Client-generated UUID identifying this bridge instance
    pub bridge_id: String,
    /// Sent as metadata.worker_type so web clients can filter by origin
    pub worker_type: String,
    /// Client-generated UUID for idempotent environment registration
    pub environment_id: String,
    /// Backend-issued environment_id to reuse on re-register
    pub reuse_environment_id: Option<String>,
    /// API base URL the bridge is connected to
    pub api_base_url: String,
    /// Session ingress base URL for WebSocket connections
    pub session_ingress_url: String,
    /// Debug file path passed via --debug-file
    pub debug_file: Option<String>,
    /// Per-session timeout
    pub session_timeout: Option<Duration>,
}

// --- Permission response event ---

#[derive(Debug)]
pub struct PermissionResponseInner {
    /// always "success"
    pub subtype: String,
    pub request_id: String,
    pub response: JsonValue,
}

/// A control_response event sent back to a session
#[derive(Debug)]
pub struct PermissionResponseEvent {
    /// always "control_response"
    pub type_: String,
    pub response: PermissionResponseInner,
}


impl PermissionResponseEvent {
    /// The event as it is sent: `{"type", "response": {"subtype", "request_id", "response"}}`.
    pub open spec fn json_view(&self) -> JsonView {
        JsonView::Object(
            seq![
                ("type"@, JsonView::Str(self.type_@)),
                (
                    "response"@,
                    JsonView::Object(
                        seq![
                            ("subtype"@, JsonView::Str(self.response.subtype@)),
                            ("request_id"@, JsonView::Str(self.response.request_id@)),
                            ("response"@, self.response.response@),
                        ],
                    ),
                ),
            ],
        )
    }

    pub fn to_json(&self) -> (r: JsonValue)
        ensures
            r@ == self.json_view(),
    {
        let mut inner: Vec<(String, JsonValue)> = Vec::new();
        inner.push((String::from_str("subtype"), JsonValue::String(self.response.subtype.clone())));
        inner.push((String::from_str("request_id"), JsonValue::String(self.response.request_id.clone())));
        inner.push((String::from_str("response"), self.response.response.deep_clone()));
        let ghost iv = inner@;
        let inner_json = JsonValue::object(inner);
        assert(members_view(iv) =~= seq![
            ("subtype"@, JsonView::Str(self.response.subtype@)),
            ("request_id"@, JsonView::Str(self.response.request_id@)),
            ("response"@, self.response.response@),
        ]);
        let mut outer: Vec<(String, JsonValue)> = Vec::new();
        outer.push((String::from_str("type"), JsonValue::String(self.type_.clone())));
        outer.push((String::from_str("response"), inner_json));
        let ghost ov = outer@;
        let r = JsonValue::object(outer);
        assert(members_view(ov) =~= self.json_view()->Object_0);
        r
    }
}

} // verus!
