use vstd::prelude::*;
use vstd::string::*;

use crate::json::{members_view, opt_json_view, opt_text_json, JsonNumber, JsonValue, JsonView, NumberView};
use crate::text::{concat3, decimal, decimal_string};
use crate::bridge::types::{BridgeConfig, PermissionResponseEvent, BRIDGE_LOGIN_INSTRUCTION};

verus! {

/// Fatal bridge errors that should not be retried
#[derive(Debug, Clone)]
pub enum BridgeFatalError {
    AuthenticationFailed { message: String, error_type: Option<String> },
    AccessDenied { message: String, error_type: Option<String> },
    NotFound { message: String, error_type: Option<String> },
    SessionExpired { message: String, error_type: Option<String> },
    Other { context: String, status: u16, message: String, error_type: Option<String> },
    RequestError(String),
    InvalidResponse(String),
}

pub enum FatalErrorView {
    AuthenticationFailed { message: Seq<char>, error_type: Option<Seq<char>> },
    AccessDenied { message: Seq<char>, error_type: Option<Seq<char>> },
    NotFound { message: Seq<char>, error_type: Option<Seq<char>> },
    SessionExpired { message: Seq<char>, error_type: Option<Seq<char>> },
    Other { context: Seq<char>, status: u16, message: Seq<char>, error_type: Option<Seq<char>> },
    RequestError(Seq<char>),
    InvalidResponse(Seq<char>),
}

pub open spec fn opt_str_view(s: Option<String>) -> Option<Seq<char>> {
    match s {
        Some(x) => Some(x@),
        None => None,
    }
}

impl View for BridgeFatalError {
    type V = FatalErrorView;

    open spec fn view(&self) -> FatalErrorView {
        match self {
            BridgeFatalError::AuthenticationFailed { message, error_type } =>
                FatalErrorView::AuthenticationFailed { message: message@, error_type: opt_str_view(*error_type) },
            BridgeFatalError::AccessDenied { message, error_type } =>
                FatalErrorView::AccessDenied { message: message@, error_type: opt_str_view(*error_type) },
            BridgeFatalError::NotFound { message, error_type } =>
                FatalErrorView::NotFound { message: message@, error_type: opt_str_view(*error_type) },
            BridgeFatalError::SessionExpired { message, error_type } =>
                FatalErrorView::SessionExpired { message: message@, error_type: opt_str_view(*error_type) },
            BridgeFatalError::Other { context, status, message, error_type } => FatalErrorView::Other {
                context: context@,
                status: *status,
                message: message@,
                error_type: opt_str_view(*error_type),
            },
            BridgeFatalError::RequestError(s) => FatalErrorView::RequestError(s@),
            BridgeFatalError::InvalidResponse(s) => FatalErrorView::InvalidResponse(s@),
        }
    }
}

impl FatalErrorView {
    /// The text under which the error is shown.
    pub open spec fn text(self) -> Seq<char> {
        match self {
            FatalErrorView::AuthenticationFailed { message, .. } => "Authentication failed (401): "@ + message,
            FatalErrorView::AccessDenied { message, .. } => "Access denied (403): "@ + message,
            FatalErrorView::NotFound { message, .. } => "Not found (404): "@ + message,
            FatalErrorView::SessionExpired { message, .. } => "Session expired (410): "@ + message,
            FatalErrorView::Other { context, status, message, .. } =>
                context + " failed with status "@ + decimal(status as nat) + ": "@ + message,
            FatalErrorView::RequestError(s) => "Request failed: "@ + s,
            FatalErrorView::InvalidResponse(s) => "Invalid response: "@ + s,
        }
    }
}

fn copy_opt(s: &Option<String>) -> (r: Option<String>)
    ensures
        opt_str_view(r) == opt_str_view(*s),
{
    match s {
        Some(x) => Some(x.clone()),
        None => None,
    }
}

impl BridgeFatalError {
    /// The text under which the error is shown.
    pub fn to_string(&self) -> (r: String)
        ensures
            r@ == self@.text(),
    {
        match self {
            BridgeFatalError::AuthenticationFailed { message, .. } =>
                String::from_str("Authentication failed (401): ").concat(message.as_str()),
            BridgeFatalError::AccessDenied { message, .. } =>
                String::from_str("Access denied (403): ").concat(message.as_str()),
            BridgeFatalError::NotFound { message, .. } =>
                String::from_str("Not found (404): ").concat(message.as_str()),
            BridgeFatalError::SessionExpired { message, .. } =>
                String::from_str("Session expired (410): ").concat(message.as_str()),
            BridgeFatalError::Other { context, status, message, .. } => {
                let code = decimal_string(*status as u64);
                let head = concat3(context.as_str(), " failed with status ", code.as_str());
                concat3(head.as_str(), ": ", message.as_str())
            },
            BridgeFatalError::RequestError(s) => String::from_str("Request failed: ").concat(s.as_str()),
            BridgeFatalError::InvalidResponse(s) => String::from_str("Invalid response: ").concat(s.as_str()),
        }
    }

    /// A copy of the error.
    pub fn duplicate(&self) -> (r: BridgeFatalError)
        ensures
            r@ == self@,
    {
        match self {
            BridgeFatalError::AuthenticationFailed { message, error_type } =>
                BridgeFatalError::AuthenticationFailed { message: message.clone(), error_type: copy_opt(error_type) },
            BridgeFatalError::AccessDenied { message, error_type } =>
                BridgeFatalError::AccessDenied { message: message.clone(), error_type: copy_opt(error_type) },
            BridgeFatalError::NotFound { message, error_type } =>
                BridgeFatalError::NotFound { message: message.clone(), error_type: copy_opt(error_type) },
            BridgeFatalError::SessionExpired { message, error_type } =>
                BridgeFatalError::SessionExpired { message: message.clone(), error_type: copy_opt(error_type) },
            BridgeFatalError::Other { context, status, message, error_type } => BridgeFatalError::Other {
                context: context.clone(),
                status: *status,
                message: message.clone(),
                error_type: copy_opt(error_type),
            },
            BridgeFatalError::RequestError(s) => BridgeFatalError::RequestError(s.clone()),
            BridgeFatalError::InvalidResponse(s) => BridgeFatalError::InvalidResponse(s.clone()),
        }
    }
}

} // verus!

verus! {

/// Allowlist pattern for server-provided IDs used in URL path segments
pub const SAFE_ID_PATTERN: &'static str = "^[a-zA-Z0-9_-]+$";

/// A character of the allowlist: an ASCII letter or digit, `_` or `-`.
pub open spec fn is_safe_id_char(c: char) -> bool {
    ('a' <= c && c <= 'z') || ('A' <= c && c <= 'Z') || ('0' <= c && c <= '9') || c == '_' || c
        == '-'
}

/// An ID that may be placed in a URL path: not empty, and made of allowlisted characters only.
pub open spec fn is_safe_id(id: Seq<char>) -> bool {
    id.len() > 0 && forall|i: int| 0 <= i < id.len() ==> is_safe_id_char(#[trigger] id[i])
}

/// Compiles `pattern` with `regex::Regex::new` and calls `is_match` on `text`. The pattern
/// is the allowlist pattern, which compiles; being anchored at both ends, it matches a text
/// exactly when the text is one or more characters of its class.
#[verifier::external_body]
fn regex_is_match(pattern: &str, text: &str) -> (r: bool)
    requires
        pattern@ == SAFE_ID_PATTERN@,
    ensures
        r == is_safe_id(text@),
{
    regex::Regex::new(pattern).unwrap().is_match(text)
}

/// The message of a rejected ID.
pub open spec fn unsafe_id_message(label: Seq<char>) -> Seq<char> {
    "Invalid "@ + label + ": contains unsafe characters"@
}

/// Validate that a server-provided ID is safe to interpolate into a URL path
pub fn validate_bridge_id(id: &str, label: &str) -> (r: Result<(), String>)
    ensures
        r is Ok <==> is_safe_id(id@),
        r matches Err(m) ==> m@ == unsafe_id_message(label@),
{
    if id.is_empty() || !regex_is_match(SAFE_ID_PATTERN, id) {
        return Err(concat3("Invalid ", label, ": contains unsafe characters"));
    }
    Ok(())
}

/// The detail that an error body gives in `error.message`, else "Unknown error".
pub open spec fn error_detail(body: JsonView) -> Seq<char> {
    match body.get("error"@) {
        Some(e) => match e.get("message"@) {
            Some(JsonView::Str(m)) => m,
            _ => "Unknown error"@,
        },
        None => "Unknown error"@,
    }
}

/// The error type that an error body gives in `error.type`, if any.
pub open spec fn error_kind(body: JsonView) -> Option<Seq<char>> {
    match body.get("error"@) {
        Some(e) => match e.get("type"@) {
            Some(JsonView::Str(t)) => Some(t),
            _ => None,
        },
        None => None,
    }
}

/// Extract error detail from response
pub fn extract_error_detail(body: &JsonValue) -> (r: String)
    ensures
        r@ == error_detail(body@),
{
    match body.get("error") {
        Some(e) => match e.get("message") {
            Some(m) => match m.as_str() {
                Some(s) => String::from_str(s),
                None => String::from_str("Unknown error"),
            },
            None => String::from_str("Unknown error"),
        },
        None => String::from_str("Unknown error"),
    }
}

/// Extract error type from response
pub fn extract_error_type(body: &JsonValue) -> (r: Option<String>)
    ensures
        opt_str_view(r) == error_kind(body@),
{
    match body.get("error") {
        Some(e) => match e.get("type") {
            Some(t) => match t.as_str() {
                Some(s) => Some(String::from_str(s)),
                None => None,
            },
            None => None,
        },
        None => None,
    }
}

/// The error for a response with an unaccepted status.
pub open spec fn status_error(status: u16, body: JsonView, context: Seq<char>) -> FatalErrorView {
    let message = error_detail(body);
    let error_type = error_kind(body);
    if status == 401 {
        FatalErrorView::AuthenticationFailed { message, error_type }
    } else if status == 403 {
        FatalErrorView::AccessDenied { message, error_type }
    } else if status == 404 {
        FatalErrorView::NotFound { message, error_type }
    } else if status == 410 {
        FatalErrorView::SessionExpired { message, error_type }
    } else {
        FatalErrorView::Other { context, status, message, error_type }
    }
}

/// Handle error responses
pub fn handle_error_response(status: u16, body: &JsonValue, context: String) -> (r: BridgeFatalError)
    ensures
        r@ == status_error(status, body@, context@),
{
    let message = extract_error_detail(body);
    let error_type = extract_error_type(body);
    if status == 401 {
        BridgeFatalError::AuthenticationFailed { message, error_type }
    } else if status == 403 {
        BridgeFatalError::AccessDenied { message, error_type }
    } else if status == 404 {
        BridgeFatalError::NotFound { message, error_type }
    } else if status == 410 {
        BridgeFatalError::SessionExpired { message, error_type }
    } else {
        BridgeFatalError::Other { context, status, message, error_type }
    }
}

} // verus!

verus! {

#[derive(Debug, Clone, Copy, PartialEq, Eq, Structural)]
pub enum HttpMethod {
    Get,
    Post,
    Delete,
}

/// A call of the environments API, with what the call sends.
#[derive(Debug)]
pub enum BridgeCall {
    /// Register a bridge environment, with the registration body
    Register { body: JsonValue },
    /// Poll for work
    Poll { environment_id: String, environment_secret: String, reclaim_older_than_ms: Option<u64> },
    /// Acknowledge work
    Acknowledge { environment_id: String, work_id: String, session_token: String },
    /// Stop work
    StopWork { environment_id: String, work_id: String, force: bool },
    /// Deregister environment
    Deregister { environment_id: String },
    /// Archive session
    ArchiveSession { session_id: String },
    /// Reconnect session
    ReconnectSession { environment_id: String, session_id: String },
    /// Send heartbeat
    Heartbeat { environment_id: String, work_id: String, session_token: String },
    /// Send permission response event, with the event as JSON
    SendPermissionResponseEvent { session_id: String, event: JsonValue, session_token: String },
}

pub enum CallView {
    Register { body: JsonView },
    Poll { environment_id: Seq<char>, environment_secret: Seq<char>, reclaim_older_than_ms: Option<u64> },
    Acknowledge { environment_id: Seq<char>, work_id: Seq<char>, session_token: Seq<char> },
    StopWork { environment_id: Seq<char>, work_id: Seq<char>, force: bool },
    Deregister { environment_id: Seq<char> },
    ArchiveSession { session_id: Seq<char> },
    ReconnectSession { environment_id: Seq<char>, session_id: Seq<char> },
    Heartbeat { environment_id: Seq<char>, work_id: Seq<char>, session_token: Seq<char> },
    SendPermissionResponseEvent { session_id: Seq<char>, event: JsonView, session_token: Seq<char> },
}

impl View for BridgeCall {
    type V = CallView;

    open spec fn view(&self) -> CallView {
        match self {
            BridgeCall::Register { body } => CallView::Register { body: body@ },
            BridgeCall::Poll { environment_id, environment_secret, reclaim_older_than_ms } => CallView::Poll {
                environment_id: environment_id@,
                environment_secret: environment_secret@,
                reclaim_older_than_ms: *reclaim_older_than_ms,
            },
            BridgeCall::Acknowledge { environment_id, work_id, session_token } => CallView::Acknowledge {
                environment_id: environment_id@,
                work_id: work_id@,
                session_token: session_token@,
            },
            BridgeCall::StopWork { environment_id, work_id, force } => CallView::StopWork {
                environment_id: environment_id@,
                work_id: work_id@,
                force: *force,
            },
            BridgeCall::Deregister { environment_id } => CallView::Deregister { environment_id: environment_id@ },
            BridgeCall::ArchiveSession { session_id } => CallView::ArchiveSession { session_id: session_id@ },
            BridgeCall::ReconnectSession { environment_id, session_id } => CallView::ReconnectSession {
                environment_id: environment_id@,
                session_id: session_id@,
            },
            BridgeCall::Heartbeat { environment_id, work_id, session_token } => CallView::Heartbeat {
                environment_id: environment_id@,
                work_id: work_id@,
                session_token: session_token@,
            },
            BridgeCall::SendPermissionResponseEvent { session_id, event, session_token } =>
                CallView::SendPermissionResponseEvent {
                    session_id: session_id@,
                    event: event@,
                    session_token: session_token@,
                },
        }
    }
}

/// The error of an ID that fails validation.
pub open spec fn id_error(label: Seq<char>) -> FatalErrorView {
    FatalErrorView::RequestError(unsafe_id_message(label))
}

/// The path of one ID after a fixed prefix and before a fixed suffix, once the ID validates.
pub open spec fn one_id_path(id: Seq<char>, label: Seq<char>, prefix: Seq<char>, suffix: Seq<char>) -> Result<Seq<char>, FatalErrorView> {
    if !is_safe_id(id) {
        Err(id_error(label))
    } else {
        Ok(prefix + id + suffix)
    }
}

/// The path of two IDs, validated in order, placed as `prefix id1 middle id2 suffix`.
pub open spec fn two_id_path(
    id1: Seq<char>,
    label1: Seq<char>,
    id2: Seq<char>,
    label2: Seq<char>,
    prefix: Seq<char>,
    middle: Seq<char>,
    suffix: Seq<char>,
) -> Result<Seq<char>, FatalErrorView> {
    if !is_safe_id(id1) {
        Err(id_error(label1))
    } else if !is_safe_id(id2) {
        Err(id_error(label2))
    } else {
        Ok(prefix + id1 + middle + id2 + suffix)
    }
}

impl CallView {
    /// The request path of a call, or the error of the first ID that fails validation.
    pub open spec fn path(self) -> Result<Seq<char>, FatalErrorView> {
        match self {
            CallView::Register { .. } => Ok("/v1/environments/bridge"@),
            CallView::Poll { environment_id, .. } =>
                one_id_path(environment_id, "environmentId"@, "/v1/environments/"@, "/work/poll"@),
            CallView::Acknowledge { environment_id, work_id, .. } =>
                two_id_path(environment_id, "environmentId"@, work_id, "workId"@, "/v1/environments/"@, "/work/"@, "/ack"@),
            CallView::StopWork { environment_id, work_id, .. } =>
                two_id_path(environment_id, "environmentId"@, work_id, "workId"@, "/v1/environments/"@, "/work/"@, "/stop"@),
            CallView::Deregister { environment_id } =>
                one_id_path(environment_id, "environmentId"@, "/v1/environments/bridge/"@, Seq::empty()),
            CallView::ArchiveSession { session_id } =>
                one_id_path(session_id, "sessionId"@, "/v1/sessions/"@, "/archive"@),
            CallView::ReconnectSession { environment_id, session_id } => if !is_safe_id(environment_id) {
                Err(id_error("environmentId"@))
            } else if !is_safe_id(session_id) {
                Err(id_error("sessionId"@))
            } else {
                Ok("/v1/environments/"@ + environment_id + "/bridge/reconnect"@)
            },
            CallView::Heartbeat { environment_id, work_id, .. } =>
                two_id_path(environment_id, "environmentId"@, work_id, "workId"@, "/v1/environments/"@, "/work/"@, "/heartbeat"@),
            CallView::SendPermissionResponseEvent { session_id, .. } =>
                one_id_path(session_id, "sessionId"@, "/v1/sessions/"@, "/events"@),
        }
    }

    /// The name of a call in the error of an unaccepted status.
    pub open spec fn context(self) -> Seq<char> {
        match self {
            CallView::Register { .. } => "Registration"@,
            CallView::Poll { .. } => "Poll"@,
            CallView::Acknowledge { .. } => "Acknowledge"@,
            CallView::StopWork { .. } => "StopWork"@,
            CallView::Deregister { .. } => "Deregister"@,
            CallView::ArchiveSession { .. } => "ArchiveSession"@,
            CallView::ReconnectSession { .. } => "ReconnectSession"@,
            CallView::Heartbeat { .. } => "Heartbeat"@,
            CallView::SendPermissionResponseEvent { .. } => "SendPermissionResponseEvent"@,
        }
    }

    pub open spec fn method(self) -> HttpMethod {
        match self {
            CallView::Poll { .. } => HttpMethod::Get,
            CallView::Deregister { .. } => HttpMethod::Delete,
            _ => HttpMethod::Post,
        }
    }

    /// Registration, poll and heartbeat accept status 200 only; the other calls accept 200 and 204.
    pub open spec fn accepts(self, status: u16) -> bool {
        match self {
            CallView::Register { .. } | CallView::Poll { .. } | CallView::Heartbeat { .. } => status == 200,
            _ => status == 200 || status == 204,
        }
    }

    /// Whether a call is sent with the caller's access token (else with a token it carries).
    pub open spec fn uses_access_token(self) -> bool {
        match self {
            CallView::Register { .. } | CallView::StopWork { .. } | CallView::Deregister { .. }
            | CallView::ArchiveSession { .. } | CallView::ReconnectSession { .. } => true,
            _ => false,
        }
    }

    /// The bearer token of a call, given the access token at hand.
    pub open spec fn bearer(self, access_token: Option<Seq<char>>) -> Result<Seq<char>, FatalErrorView> {
        match self {
            CallView::Poll { environment_secret, .. } => Ok(environment_secret),
            CallView::Acknowledge { session_token, .. } => Ok(session_token),
            CallView::Heartbeat { session_token, .. } => Ok(session_token),
            CallView::SendPermissionResponseEvent { session_token, .. } => Ok(session_token),
            _ => match access_token {
                Some(t) => Ok(t),
                None => Err(FatalErrorView::RequestError(BRIDGE_LOGIN_INSTRUCTION@)),
            },
        }
    }

    /// The JSON body of a call, if it sends one.
    pub open spec fn body(self) -> Option<JsonView> {
        match self {
            CallView::Register { body } => Some(body),
            CallView::Poll { .. } => None,
            CallView::Deregister { .. } => None,
            CallView::StopWork { force, .. } => Some(JsonView::Object(seq![("force"@, JsonView::Bool(force))])),
            CallView::ReconnectSession { session_id, .. } =>
                Some(JsonView::Object(seq![("session_id"@, JsonView::Str(session_id))])),
            CallView::SendPermissionResponseEvent { event, .. } =>
                Some(JsonView::Object(seq![("events"@, JsonView::Array(seq![event]))])),
            _ => Some(JsonView::Object(Seq::empty())),
        }
    }

    /// The query of a call: a poll may ask to reclaim work older than a number of milliseconds.
    pub open spec fn query(self) -> Seq<(Seq<char>, Seq<char>)> {
        match self {
            CallView::Poll { reclaim_older_than_ms: Some(ms), .. } =>
                seq![("reclaim_older_than_ms"@, decimal(ms as nat))],
            _ => Seq::empty(),
        }
    }

    pub open spec fn timeout_secs(self) -> u64 {
        match self {
            CallView::Register { .. } => 15,
            _ => 10,
        }
    }

    /// An archive call answered with 409 concerns a session that is archived already: it
    /// succeeds without reading the body.
    pub open spec fn done_without_body(self, status: u16) -> bool {
        self is ArchiveSession && status == 409
    }
}

pub open spec fn fatal_result_view<T>(r: Result<T, BridgeFatalError>) -> Result<T, FatalErrorView> {
    match r {
        Ok(x) => Ok(x),
        Err(e) => Err(e@),
    }
}

pub open spec fn string_result_view(r: Result<String, BridgeFatalError>) -> Result<Seq<char>, FatalErrorView> {
    match r {
        Ok(x) => Ok(x@),
        Err(e) => Err(e@),
    }
}

fn checked_id(id: &str, label: &str) -> (r: Result<(), BridgeFatalError>)
    ensures
        r is Ok <==> is_safe_id(id@),
        r matches Err(e) ==> e@ == id_error(label@),
{
    match validate_bridge_id(id, label) {
        Ok(()) => Ok(()),
        Err(m) => Err(BridgeFatalError::RequestError(m)),
    }
}

fn single_member(key: &str, value: JsonValue) -> (r: JsonValue)
    ensures
        r@ == JsonView::Object(seq![(key@, value@)]),
{
    let ghost vv = value@;
    let mut members: Vec<(String, JsonValue)> = Vec::new();
    members.push((String::from_str(key), value));
    let r = JsonValue::Object(members);
    assert(r@->Object_0[0] == (key@, vv));
    assert(r@->Object_0 =~= seq![(key@, vv)]);
    r
}

impl BridgeCall {
    /// The registration call for a bridge configuration.
    pub fn register(config: &BridgeConfig) -> (r: BridgeCall)
        ensures
            r@ == (CallView::Register { body: registration_body(config) }),
    {
        BridgeCall::Register { body: register_request_body(config) }
    }

    /// The call that sends a permission response event.
    pub fn send_permission_response_event(
        session_id: String,
        event: &PermissionResponseEvent,
        session_token: String,
    ) -> (r: BridgeCall)
        ensures
            r@ == (CallView::SendPermissionResponseEvent {
                session_id: session_id@,
                event: event.json_view(),
                session_token: session_token@,
            }),
    {
        BridgeCall::SendPermissionResponseEvent { session_id, event: event.to_json(), session_token }
    }

    /// The request path, validating the IDs that it holds.
    pub fn path(&self) -> (r: Result<String, BridgeFatalError>)
        ensures
            string_result_view(r) == self@.path(),
    {
        match self {
            BridgeCall::Register { .. } => Ok(String::from_str("/v1/environments/bridge")),
            BridgeCall::Poll { environment_id, .. } => {
                if let Err(e) = checked_id(environment_id.as_str(), "environmentId") {
                    return Err(e);
                }
                Ok(concat3("/v1/environments/", environment_id.as_str(), "/work/poll"))
            },
            BridgeCall::Acknowledge { environment_id, work_id, .. } => {
                if let Err(e) = checked_id(environment_id.as_str(), "environmentId") {
                    return Err(e);
                }
                if let Err(e) = checked_id(work_id.as_str(), "workId") {
                    return Err(e);
                }
                let head = concat3("/v1/environments/", environment_id.as_str(), "/work/");
                Ok(concat3(head.as_str(), work_id.as_str(), "/ack"))
            },
            BridgeCall::StopWork { environment_id, work_id, .. } => {
                if let Err(e) = checked_id(environment_id.as_str(), "environmentId") {
                    return Err(e);
                }
                if let Err(e) = checked_id(work_id.as_str(), "workId") {
                    return Err(e);
                }
                let head = concat3("/v1/environments/", environment_id.as_str(), "/work/");
                Ok(concat3(head.as_str(), work_id.as_str(), "/stop"))
            },
            BridgeCall::Deregister { environment_id } => {
                if let Err(e) = checked_id(environment_id.as_str(), "environmentId") {
                    return Err(e);
                }
                Ok(String::from_str("/v1/environments/bridge/").concat(environment_id.as_str()))
            },
            BridgeCall::ArchiveSession { session_id } => {
                if let Err(e) = checked_id(session_id.as_str(), "sessionId") {
                    return Err(e);
                }
                Ok(concat3("/v1/sessions/", session_id.as_str(), "/archive"))
            },
            BridgeCall::ReconnectSession { environment_id, session_id } => {
                if let Err(e) = checked_id(environment_id.as_str(), "environmentId") {
                    return Err(e);
                }
                if let Err(e) = checked_id(session_id.as_str(), "sessionId") {
                    return Err(e);
                }
                Ok(concat3("/v1/environments/", environment_id.as_str(), "/bridge/reconnect"))
            },
            BridgeCall::Heartbeat { environment_id, work_id, .. } => {
                if let Err(e) = checked_id(environment_id.as_str(), "environmentId") {
                    return Err(e);
                }
                if let Err(e) = checked_id(work_id.as_str(), "workId") {
                    return Err(e);
                }
                let head = concat3("/v1/environments/", environment_id.as_str(), "/work/");
                Ok(concat3(head.as_str(), work_id.as_str(), "/heartbeat"))
            },
            BridgeCall::SendPermissionResponseEvent { session_id, .. } => {
                if let Err(e) = checked_id(session_id.as_str(), "sessionId") {
                    return Err(e);
                }
                Ok(concat3("/v1/sessions/", session_id.as_str(), "/events"))
            },
        }
    }
}

} // verus!

verus! {

/// The body of a registration: the machine, directory, branch, repository URL, session
/// limit, worker type and the environment ID to reuse.
pub open spec fn registration_body(config: &BridgeConfig) -> JsonView {
    JsonView::Object(
        seq![
            ("machine_name"@, JsonView::Str(config.machine_name@)),
            ("directory"@, JsonView::Str(config.dir@)),
            ("branch"@, JsonView::Str(config.branch@)),
            ("git_repo_url"@, opt_text_json(opt_str_view(config.git_repo_url))),
            ("max_sessions"@, JsonView::Number(NumberView::PosInt(config.max_sessions as u64))),
            ("metadata"@, JsonView::Object(seq![("worker_type"@, JsonView::Str(config.worker_type@))])),
            ("environment_id"@, opt_text_json(opt_str_view(config.reuse_environment_id))),
        ],
    )
}

/// Builds the body of a registration.
pub fn register_request_body(config: &BridgeConfig) -> (r: JsonValue)
    ensures
        r@ == registration_body(config),
{
    let mut meta: Vec<(String, JsonValue)> = Vec::new();
    meta.push((String::from_str("worker_type"), JsonValue::String(config.worker_type.clone())));
    let ghost mv = meta@;
    let metadata = JsonValue::object(meta);
    assert(members_view(mv) =~= seq![("worker_type"@, JsonView::Str(config.worker_type@))]);
    let mut m: Vec<(String, JsonValue)> = Vec::new();
    m.push((String::from_str("machine_name"), JsonValue::String(config.machine_name.clone())));
    m.push((String::from_str("directory"), JsonValue::String(config.dir.clone())));
    m.push((String::from_str("branch"), JsonValue::String(config.branch.clone())));
    m.push((String::from_str("git_repo_url"), JsonValue::opt_string(&config.git_repo_url)));
    m.push((String::from_str("max_sessions"), JsonValue::Number(JsonNumber::PosInt(config.max_sessions as u64))));
    m.push((String::from_str("metadata"), metadata));
    m.push((String::from_str("environment_id"), JsonValue::opt_string(&config.reuse_environment_id)));
    let ghost v = m@;
    let r = JsonValue::object(m);
    assert(members_view(v) =~= registration_body(config)->Object_0);
    r
}

} // verus!

verus! {

impl BridgeCall {
    /// The name of the call in the error of an unaccepted status.
    pub fn context(&self) -> (r: String)
        ensures
            r@ == self@.context(),
    {
        match self {
            BridgeCall::Register { .. } => String::from_str("Registration"),
            BridgeCall::Poll { .. } => String::from_str("Poll"),
            BridgeCall::Acknowledge { .. } => String::from_str("Acknowledge"),
            BridgeCall::StopWork { .. } => String::from_str("StopWork"),
            BridgeCall::Deregister { .. } => String::from_str("Deregister"),
            BridgeCall::ArchiveSession { .. } => String::from_str("ArchiveSession"),
            BridgeCall::ReconnectSession { .. } => String::from_str("ReconnectSession"),
            BridgeCall::Heartbeat { .. } => String::from_str("Heartbeat"),
            BridgeCall::SendPermissionResponseEvent { .. } => String::from_str("SendPermissionResponseEvent"),
        }
    }

    pub fn method(&self) -> (r: HttpMethod)
        ensures
            r == self@.method(),
    {
        match self {
            BridgeCall::Poll { .. } => HttpMethod::Get,
            BridgeCall::Deregister { .. } => HttpMethod::Delete,
            _ => HttpMethod::Post,
        }
    }

    pub fn timeout_secs(&self) -> (r: u64)
        ensures
            r == self@.timeout_secs(),
    {
        match self {
            BridgeCall::Register { .. } => 15,
            _ => 10,
        }
    }

    /// Whether a response status counts as success for this call.
    pub fn accepts(&self, status: u16) -> (r: bool)
        ensures
            r == self@.accepts(status),
    {
        match self {
            BridgeCall::Register { .. } | BridgeCall::Poll { .. } | BridgeCall::Heartbeat { .. } => status == 200,
            _ => status == 200 || status == 204,
        }
    }

    /// Whether the bearer token is taken before the URL is built: so for a registration,
    /// whose missing token is reported before any fault of the URL; the other calls first
    /// validate their IDs and build the URL.
    pub fn token_first(&self) -> (r: bool)
        ensures
            r == (self@ is Register),
    {
        match self {
            BridgeCall::Register { .. } => true,
            _ => false,
        }
    }

    /// Whether the call is sent with the caller's access token.
    pub fn uses_access_token(&self) -> (r: bool)
        ensures
            r == self@.uses_access_token(),
    {
        match self {
            BridgeCall::Register { .. } | BridgeCall::StopWork { .. } | BridgeCall::Deregister { .. }
            | BridgeCall::ArchiveSession { .. } | BridgeCall::ReconnectSession { .. } => true,
            _ => false,
        }
    }

    /// The bearer token to send, given the access token at hand; a call that needs the
    /// access token fails when there is none.
    pub fn bearer(&self, access_token: Option<String>) -> (r: Result<String, BridgeFatalError>)
        ensures
            string_result_view(r) == self@.bearer(opt_str_view(access_token)),
    {
        match self {
            BridgeCall::Poll { environment_secret, .. } => Ok(environment_secret.clone()),
            BridgeCall::Acknowledge { session_token, .. } => Ok(session_token.clone()),
            BridgeCall::Heartbeat { session_token, .. } => Ok(session_token.clone()),
            BridgeCall::SendPermissionResponseEvent { session_token, .. } => Ok(session_token.clone()),
            _ => match access_token {
                Some(t) => Ok(t),
                None => Err(BridgeFatalError::RequestError(String::from_str(BRIDGE_LOGIN_INSTRUCTION))),
            },
        }
    }

    /// The JSON body to send, if any.
    pub fn body(&self) -> (r: Option<JsonValue>)
        ensures
            opt_json_view(r) == self@.body(),
    {
        match self {
            BridgeCall::Register { body } => Some(body.deep_clone()),
            BridgeCall::Poll { .. } => None,
            BridgeCall::Deregister { .. } => None,
            BridgeCall::StopWork { force, .. } => Some(single_member("force", JsonValue::Bool(*force))),
            BridgeCall::ReconnectSession { session_id, .. } =>
                Some(single_member("session_id", JsonValue::String(session_id.clone()))),
            BridgeCall::SendPermissionResponseEvent { event, .. } => {
                let mut items: Vec<JsonValue> = Vec::new();
                items.push(event.deep_clone());
                let arr = JsonValue::Array(items);
                assert(arr@->Array_0 =~= seq![event@]);
                Some(single_member("events", arr))
            },
            _ => Some(JsonValue::empty_object()),
        }
    }

    /// The query parameters to send.
    pub fn query(&self) -> (r: Vec<(String, String)>)
        ensures
            r@.len() == self@.query().len(),
            forall|i: int| 0 <= i < r@.len() ==> (#[trigger] r@[i]).0@ == self@.query()[i].0 && r@[i].1@ == self@.query()[i].1,
    {
        let mut q: Vec<(String, String)> = Vec::new();
        match self {
            BridgeCall::Poll { reclaim_older_than_ms: Some(ms), .. } => {
                q.push((String::from_str("reclaim_older_than_ms"), decimal_string(*ms)));
            },
            _ => {},
        }
        q
    }

    /// Whether the status settles the call before its body is read.
    pub fn done_without_body(&self, status: u16) -> (r: bool)
        ensures
            r == self@.done_without_body(status),
    {
        match self {
            BridgeCall::ArchiveSession { .. } => status == 409,
            _ => false,
        }
    }

    /// The outcome of a call from its status and its body as read (or the text of the error
    /// with which reading it as JSON failed): nothing, where the status settles the call
    /// without the body; an invalid response, where the body is no JSON; otherwise the body
    /// of an accepted status, or the error that the status and body give.
    pub fn answer(&self, status: u16, body: Result<JsonValue, String>) -> (r: Result<Option<JsonValue>, BridgeFatalError>)
        ensures
            self@.done_without_body(status) ==> r matches Ok(None),
            !self@.done_without_body(status) ==> match body {
                Err(t) => r matches Err(e) && e@ == FatalErrorView::InvalidResponse(t@),
                Ok(b) => if self@.accepts(status) {
                    r matches Ok(Some(x)) && x@ == b@
                } else {
                    r matches Err(e) && e@ == status_error(status, b@, self@.context())
                },
            },
    {
        if self.done_without_body(status) {
            return Ok(None);
        }
        match body {
            Err(t) => Err(BridgeFatalError::InvalidResponse(t)),
            Ok(b) => match self.check_response(status, &b) {
                Ok(()) => Ok(Some(b)),
                Err(e) => Err(e),
            },
        }
    }

    /// Success for an accepted status, else the error that the status and body give.
    pub fn check_response(&self, status: u16, body: &JsonValue) -> (r: Result<(), BridgeFatalError>)
        ensures
            r is Ok <==> self@.accepts(status),
            r matches Err(e) ==> e@ == status_error(status, body@, self@.context()),
    {
        if self.accepts(status) {
            Ok(())
        } else {
            Err(handle_error_response(status, body, self.context()))
        }
    }
}

/// The environment ID and secret in a registration answer, or the first one that is missing.
pub open spec fn registration_result(body: JsonView) -> Result<(Seq<char>, Seq<char>), FatalErrorView> {
    match body.index("environment_id"@) {
        JsonView::Str(id) => match body.index("environment_secret"@) {
            JsonView::Str(secret) => Ok((id, secret)),
            _ => Err(FatalErrorView::InvalidResponse("missing environment_secret"@)),
        },
        _ => Err(FatalErrorView::InvalidResponse("missing environment_id"@)),
    }
}

/// Reads the environment ID and secret from a registration answer.
pub fn register_result(body: &JsonValue) -> (r: Result<(String, String), BridgeFatalError>)
    ensures
        match r {
            Ok((id, secret)) => registration_result(body@) == Ok::<(Seq<char>, Seq<char>), FatalErrorView>((id@, secret@)),
            Err(e) => registration_result(body@) == Err::<(Seq<char>, Seq<char>), FatalErrorView>(e@),
        },
{
    let id = match body.get("environment_id") {
        Some(v) => match v.as_str() {
            Some(s) => String::from_str(s),
            None => return Err(BridgeFatalError::InvalidResponse(String::from_str("missing environment_id"))),
        },
        None => return Err(BridgeFatalError::InvalidResponse(String::from_str("missing environment_id"))),
    };
    let secret = match body.get("environment_secret") {
        Some(v) => match v.as_str() {
            Some(s) => String::from_str(s),
            None => return Err(BridgeFatalError::InvalidResponse(String::from_str("missing environment_secret"))),
        },
        None => return Err(BridgeFatalError::InvalidResponse(String::from_str("missing environment_secret"))),
    };
    Ok((id, secret))
}

/// Whether a poll answer holds work: anything but null or an empty object.
pub fn poll_has_work(body: &JsonValue) -> (r: bool)
    ensures
        r == !body@.is_empty_payload(),
{
    !body.is_empty_payload()
}

/// The lease flag and state in a heartbeat answer: `lease_extended` when it is a boolean,
/// else false; `state` when it is a string, else empty.
pub open spec fn heartbeat_outcome(body: JsonView) -> (bool, Seq<char>) {
    (
        match body.index("lease_extended"@) {
            JsonView::Bool(b) => b,
            _ => false,
        },
        match body.index("state"@) {
            JsonView::Str(s) => s,
            _ => Seq::empty(),
        },
    )
}

/// Reads the lease flag and state from a heartbeat answer.
pub fn heartbeat_result(body: &JsonValue) -> (r: (bool, String))
    ensures
        (r.0, r.1@) == heartbeat_outcome(body@),
{
    let lease = match body.get("lease_extended") {
        Some(v) => match v.as_bool() {
            Some(b) => b,
            None => false,
        },
        None => false,
    };
    let state = match body.get("state") {
        Some(v) => match v.as_str() {
            Some(s) => String::from_str(s),
            None => String::new(),
        },
        None => String::new(),
    };
    (lease, state)
}

/// The headers of a bridge request: the bearer token, the JSON content type, the bridge
/// version and, when there is one, the trusted device token.
pub open spec fn bridge_header_list(token: Seq<char>, runner_version: Seq<char>, device_token: Option<Seq<char>>) -> Seq<(Seq<char>, Seq<char>)> {
    let base = seq![
        ("authorization"@, "Bearer "@ + token),
        ("content-type"@, "application/json"@),
        ("x-bridge-version"@, runner_version),
    ];
    match device_token {
        Some(t) => base.push(("x-bridge-device-token"@, t)),
        None => base,
    }
}

/// Whether a header value may hold `c`: a tab, or any character from the space on but
/// DEL (the bytes of a character beyond ASCII are all at or above 0x80, which a header
/// value admits).
pub open spec fn header_value_char(c: char) -> bool {
    c == '\t' || (c as u32 >= 0x20 && c as u32 != 0x7f)
}

/// Whether every character of `s` may stand in a header value.
pub open spec fn is_header_value_text(s: Seq<char>) -> bool {
    forall|i: int| 0 <= i < s.len() ==> header_value_char(#[trigger] s[i])
}

/// Whether a text may stand in a header value.
pub fn is_header_value(s: &str) -> (r: bool)
    ensures
        r == is_header_value_text(s@),
{
    let n = s.unicode_len();
    let mut i: usize = 0;
    while i < n
        invariant
            n == s@.len(),
            i <= n,
            forall|j: int| 0 <= j < i ==> header_value_char(#[trigger] s@[j]),
        decreases n - i,
    {
        let c = s.get_char(i);
        let code = c as u32;
        if !(c == '\t' || (code >= 0x20 && code != 0x7f)) {
            assert(!header_value_char(s@[i as int]));
            return false;
        }
        i = i + 1;
    }
    true
}

/// Build headers with auth. Every value must be one that a header can hold; the caller
/// checks that with `is_header_value`.
pub fn build_headers(access_token: &str, runner_version: &str, device_token: Option<String>) -> (r: Vec<(String, String)>)
    requires
        is_header_value_text(access_token@),
        is_header_value_text(runner_version@),
        device_token matches Some(t) ==> is_header_value_text(t@),
    ensures
        r@.len() == bridge_header_list(access_token@, runner_version@, opt_str_view(device_token)).len(),
        forall|i: int| 0 <= i < r@.len() ==> (#[trigger] r@[i]).0@ == bridge_header_list(access_token@, runner_version@, opt_str_view(device_token))[i].0
            && r@[i].1@ == bridge_header_list(access_token@, runner_version@, opt_str_view(device_token))[i].1,
{
    let mut h: Vec<(String, String)> = Vec::new();
    h.push((String::from_str("authorization"), String::from_str("Bearer ").concat(access_token)));
    h.push((String::from_str("content-type"), String::from_str("application/json")));
    h.push((String::from_str("x-bridge-version"), String::from_str(runner_version)));
    match device_token {
        Some(t) => h.push((String::from_str("x-bridge-device-token"), t)),
        None => {},
    }
    h
}

} // verus!

verus! {

/// A stop-work request sends the call's own force flag: its body is an object whose one
/// member `force` holds that flag, so a graceful stop and a forced stop differ exactly in
/// it.
pub proof fn lemma_stop_work_sends_its_force(c: CallView, d: CallView)
    ensures
        c matches CallView::StopWork { force, .. } ==> (c.body() matches Some(JsonView::Object(m)) && m.len() == 1
            && m[0] == ("force"@, JsonView::Bool(force))),
        c matches CallView::StopWork { force: f1, .. } && d matches CallView::StopWork { force: f2, .. } && f1 != f2
            ==> c.body() != d.body(),
{
    if c is StopWork && d is StopWork && c->StopWork_force != d->StopWork_force {
        assert(c.body()->Some_0->Object_0[0] != d.body()->Some_0->Object_0[0]);
    }
}

/// An ID that validates is one path segment that changes no path: it is not empty and
/// holds no `/`, `?`, `#`, `%` or `.`.
pub proof fn lemma_safe_id_is_plain_segment(id: Seq<char>)
    requires
        is_safe_id(id),
    ensures
        id.len() > 0,
        !id.contains('/'),
        !id.contains('?'),
        !id.contains('#'),
        !id.contains('%'),
        !id.contains('.'),
{
    assert forall|c: char| #[trigger] id.contains(c) implies is_safe_id_char(c) by {
        let i = choose|i: int| 0 <= i < id.len() && id[i] == c;
        assert(is_safe_id_char(id[i]));
    }
}

/// Whether every ID that a call places in its path validates.
pub open spec fn ids_safe(c: CallView) -> bool {
    match c {
        CallView::Register { .. } => true,
        CallView::Poll { environment_id, .. } => is_safe_id(environment_id),
        CallView::Acknowledge { environment_id, work_id, .. } => is_safe_id(environment_id) && is_safe_id(work_id),
        CallView::StopWork { environment_id, work_id, .. } => is_safe_id(environment_id) && is_safe_id(work_id),
        CallView::Deregister { environment_id } => is_safe_id(environment_id),
        CallView::ArchiveSession { session_id } => is_safe_id(session_id),
        CallView::ReconnectSession { environment_id, session_id } => is_safe_id(environment_id) && is_safe_id(session_id),
        CallView::Heartbeat { environment_id, work_id, .. } => is_safe_id(environment_id) && is_safe_id(work_id),
        CallView::SendPermissionResponseEvent { session_id, .. } => is_safe_id(session_id),
    }
}

/// A call has a path exactly when all of its IDs validate; otherwise it fails with the
/// error of an ID, before anything is sent.
pub proof fn lemma_path_exists_iff_ids_safe(c: CallView)
    ensures
        c.path() is Ok <==> ids_safe(c),
        c.path() matches Err(e) ==> e is RequestError,
{
}

/// Every call accepts status 200; status 204 is accepted by all calls but registration,
/// poll and heartbeat; no other status is accepted.
pub proof fn lemma_accepted_statuses(c: CallView, status: u16)
    ensures
        c.accepts(200),
        c.accepts(204) <==> !(c is Register || c is Poll || c is Heartbeat),
        status != 200 && status != 204 ==> !c.accepts(status),
{
}

/// An unaccepted status yields the error of its kind, carrying the detail and type that
/// the body gives; statuses other than 401, 403, 404 and 410 keep the call's context and
/// the status itself.
pub proof fn lemma_status_error_keeps_body_detail(status: u16, body: JsonView, context: Seq<char>)
    ensures
        match status_error(status, body, context) {
            FatalErrorView::AuthenticationFailed { message, error_type } => status == 401 && message == error_detail(body)
                && error_type == error_kind(body),
            FatalErrorView::AccessDenied { message, error_type } => status == 403 && message == error_detail(body)
                && error_type == error_kind(body),
            FatalErrorView::NotFound { message, error_type } => status == 404 && message == error_detail(body)
                && error_type == error_kind(body),
            FatalErrorView::SessionExpired { message, error_type } => status == 410 && message == error_detail(body)
                && error_type == error_kind(body),
            FatalErrorView::Other { context: c, status: s, message, error_type } => c == context && s == status
                && status != 401 && status != 403 && status != 404 && status != 410
                && message == error_detail(body) && error_type == error_kind(body),
            _ => false,
        },
{
}

} // verus!

verus! {

#[verifier::external_type_specification]
#[verifier::external_body]
pub struct ExUrl(url::Url);

#[verifier::external_type_specification]
#[verifier::external_body]
pub struct ExUrlParseError(url::ParseError);

/// The text of a URL that `url::Url::parse` rejects, or `None` where it accepts the URL.
pub uninterp spec fn url_parse_failure(text: Seq<char>) -> Option<Seq<char>>;

/// The URL that `url::Url::parse` reads from a text it accepts: a function of the text.
pub uninterp spec fn parsed_url(text: Seq<char>) -> url::Url;

/// Calls `url::Url::parse`, giving the URL, or the error together with its text; the
/// outcome is the one named by `url_parse_failure` and `parsed_url`.
#[verifier::external_body]
pub(crate) fn parse_url(text: &str) -> (r: Result<url::Url, (url::ParseError, String)>)
    ensures
        match r {
            Ok(u) => url_parse_failure(text@) is None && u == parsed_url(text@),
            Err((_, m)) => url_parse_failure(text@) == Some(m@),
        },
{
    match url::Url::parse(text) {
        Ok(u) => Ok(u),
        Err(e) => Err((e, e.to_string())),
    }
}

/// What `url::Url::join` gives for a base URL and a reference: the joined URL, or the text
/// of its error; a function of the two.
pub uninterp spec fn url_join_outcome(base: url::Url, reference: Seq<char>) -> Result<url::Url, Seq<char>>;

/// Calls `url::Url::join`, keeping the text of its error; the outcome is the one named by
/// `url_join_outcome`.
#[verifier::external_body]
fn join_url(base: &url::Url, reference: &str) -> (r: Result<url::Url, String>)
    ensures
        match r {
            Ok(u) => url_join_outcome(*base, reference@) == Ok::<url::Url, Seq<char>>(u),
            Err(m) => url_join_outcome(*base, reference@) == Err::<url::Url, Seq<char>>(m@),
        },
{
    base.join(reference).map_err(|e| e.to_string())
}

/// Reads the base URL of the environments API.
pub fn parse_base_url(base_url: &str) -> (r: Result<url::Url, url::ParseError>)
    ensures
        match r {
            Ok(u) => url_parse_failure(base_url@) is None && u == parsed_url(base_url@),
            Err(_) => url_parse_failure(base_url@) is Some,
        },
{
    match parse_url(base_url) {
        Ok(u) => Ok(u),
        Err((e, _)) => Err(e),
    }
}

/// The absolute URL of a call: its validated path joined to the base URL; a failed join is
/// a request error with the join's text.
pub fn call_url(base: &url::Url, call: &BridgeCall) -> (r: Result<url::Url, BridgeFatalError>)
    ensures
        match call@.path() {
            Err(e) => r matches Err(f) && f@ == e,
            Ok(p) => match url_join_outcome(*base, p) {
                Ok(u) => r matches Ok(v) && v == u,
                Err(m) => r matches Err(f) && f@ == FatalErrorView::RequestError(m),
            },
        },
{
    let path = match call.path() {
        Ok(p) => p,
        Err(e) => {
            return Err(e);
        },
    };
    match join_url(base, path.as_str()) {
        Ok(u) => Ok(u),
        Err(m) => Err(BridgeFatalError::RequestError(m)),
    }
}

} // verus!
