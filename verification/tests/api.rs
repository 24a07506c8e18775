use runtime::bridge::api::{
    build_headers, extract_error_detail, extract_error_type, handle_error_response, heartbeat_result, poll_has_work,
    register_request_body, register_result, validate_bridge_id, BridgeCall, BridgeFatalError, HttpMethod,
};
use runtime::bridge::types::{BridgeConfig, PermissionResponseEvent, PermissionResponseInner, SpawnMode};
use runtime::json::{JsonNumber, JsonValue};

fn obj(members: Vec<(&str, JsonValue)>) -> JsonValue {
    JsonValue::Object(members.into_iter().map(|(k, v)| (k.to_string(), v)).collect())
}

fn s(t: &str) -> JsonValue {
    JsonValue::String(t.to_string())
}

fn member<'a>(v: &'a JsonValue, key: &str) -> Option<&'a JsonValue> {
    match v {
        JsonValue::Object(m) => m.iter().find(|(k, _)| k == key).map(|(_, v)| v),
        _ => None,
    }
}

fn config() -> BridgeConfig {
    BridgeConfig {
        dir: "/work".into(),
        machine_name: "box".into(),
        branch: "main".into(),
        git_repo_url: None,
        max_sessions: 4,
        spawn_mode: SpawnMode::SameDir,
        verbose: false,
        sandbox: false,
        bridge_id: "b1".into(),
        worker_type: "claude_code".into(),
        environment_id: "e1".into(),
        reuse_environment_id: Some("env-9".into()),
        api_base_url: "http://localhost:8765".into(),
        session_ingress_url: "ws://localhost:8765".into(),
        debug_file: None,
        session_timeout: None,
    }
}

#[test]
fn validate_bridge_id_accepts_only_safe_ids() {
    assert!(validate_bridge_id("env_01-AB", "environmentId").is_ok());
    assert_eq!(validate_bridge_id("", "workId"), Err("Invalid workId: contains unsafe characters".to_string()));
    assert_eq!(
        validate_bridge_id("../etc", "sessionId"),
        Err("Invalid sessionId: contains unsafe characters".to_string())
    );
    assert!(validate_bridge_id("a/b", "x").is_err());
    assert!(validate_bridge_id("a b", "x").is_err());
    assert!(validate_bridge_id("abc\n", "x").is_err());
    assert!(validate_bridge_id("é", "x").is_err());
}

#[test]
fn status_errors_by_kind() {
    let body = obj(vec![("error", obj(vec![("message", s("nope")), ("type", s("auth"))]))]);
    match handle_error_response(401, &body, "Poll".into()) {
        BridgeFatalError::AuthenticationFailed { message, error_type } => {
            assert_eq!(message, "nope");
            assert_eq!(error_type, Some("auth".to_string()));
        },
        _ => panic!("401"),
    }
    assert!(matches!(handle_error_response(403, &body, "Poll".into()), BridgeFatalError::AccessDenied { .. }));
    assert!(matches!(handle_error_response(404, &body, "Poll".into()), BridgeFatalError::NotFound { .. }));
    assert!(matches!(handle_error_response(410, &body, "Poll".into()), BridgeFatalError::SessionExpired { .. }));
    let other = handle_error_response(500, &JsonValue::Null, "Heartbeat".into());
    assert_eq!(other.to_string(), "Heartbeat failed with status 500: Unknown error");
    match other {
        BridgeFatalError::Other { context, status, message, error_type } => {
            assert_eq!(context, "Heartbeat");
            assert_eq!(status, 500);
            assert_eq!(message, "Unknown error");
            assert_eq!(error_type, None);
        },
        _ => panic!("500"),
    }
}

#[test]
fn error_detail_extraction() {
    assert_eq!(extract_error_detail(&obj(vec![("error", obj(vec![("message", s("m"))]))])), "m");
    assert_eq!(extract_error_detail(&obj(vec![("error", obj(vec![("message", JsonValue::Bool(true))]))])), "Unknown error");
    assert_eq!(extract_error_detail(&s("text")), "Unknown error");
    assert_eq!(extract_error_type(&obj(vec![("error", obj(vec![("type", s("t"))]))])), Some("t".to_string()));
    assert_eq!(extract_error_type(&obj(vec![("error", s("t"))])), None);
}

#[test]
fn fatal_error_texts() {
    let e = |m: &str| (m.to_string(), None::<String>);
    let (m, t) = e("x");
    assert_eq!(BridgeFatalError::AuthenticationFailed { message: m, error_type: t }.to_string(), "Authentication failed (401): x");
    let (m, t) = e("x");
    assert_eq!(BridgeFatalError::AccessDenied { message: m, error_type: t }.to_string(), "Access denied (403): x");
    let (m, t) = e("x");
    assert_eq!(BridgeFatalError::NotFound { message: m, error_type: t }.to_string(), "Not found (404): x");
    let (m, t) = e("x");
    assert_eq!(BridgeFatalError::SessionExpired { message: m, error_type: t }.to_string(), "Session expired (410): x");
    assert_eq!(BridgeFatalError::RequestError("x".into()).to_string(), "Request failed: x");
    assert_eq!(BridgeFatalError::InvalidResponse("x".into()).to_string(), "Invalid response: x");
    let other = BridgeFatalError::Other { context: "Poll".into(), status: 502, message: "bad".into(), error_type: None };
    assert_eq!(other.to_string(), "Poll failed with status 502: bad");
    assert_eq!(other.duplicate().to_string(), "Poll failed with status 502: bad");
}

#[test]
fn call_paths_and_validation_order() {
    let ack = BridgeCall::Acknowledge { environment_id: "e1".into(), work_id: "w1".into(), session_token: "st".into() };
    assert_eq!(ack.path().map_err(|e| e.to_string()), Ok("/v1/environments/e1/work/w1/ack".to_string()));
    let bad = BridgeCall::Acknowledge { environment_id: "e/1".into(), work_id: "w 1".into(), session_token: "st".into() };
    assert_eq!(bad.path().err().map(|e| e.to_string()), Some("Request failed: Invalid environmentId: contains unsafe characters".to_string()));
    let bad_work = BridgeCall::Heartbeat { environment_id: "e1".into(), work_id: "w 1".into(), session_token: "st".into() };
    assert_eq!(bad_work.path().err().map(|e| e.to_string()), Some("Request failed: Invalid workId: contains unsafe characters".to_string()));
    let dereg = BridgeCall::Deregister { environment_id: "e1".into() };
    assert_eq!(dereg.path().map_err(|e| e.to_string()), Ok("/v1/environments/bridge/e1".to_string()));
    let reconnect = BridgeCall::ReconnectSession { environment_id: "e1".into(), session_id: "s1".into() };
    assert_eq!(reconnect.path().map_err(|e| e.to_string()), Ok("/v1/environments/e1/bridge/reconnect".to_string()));
    let archive = BridgeCall::ArchiveSession { session_id: "s1".into() };
    assert_eq!(archive.path().map_err(|e| e.to_string()), Ok("/v1/sessions/s1/archive".to_string()));
    let stop = BridgeCall::StopWork { environment_id: "e1".into(), work_id: "w1".into(), force: true };
    assert_eq!(stop.path().map_err(|e| e.to_string()), Ok("/v1/environments/e1/work/w1/stop".to_string()));
    let poll = BridgeCall::Poll { environment_id: "e1".into(), environment_secret: "sec".into(), reclaim_older_than_ms: Some(5000) };
    assert_eq!(poll.path().map_err(|e| e.to_string()), Ok("/v1/environments/e1/work/poll".to_string()));
    let hb = BridgeCall::Heartbeat { environment_id: "e1".into(), work_id: "w1".into(), session_token: "st".into() };
    assert_eq!(hb.path().map_err(|e| e.to_string()), Ok("/v1/environments/e1/work/w1/heartbeat".to_string()));
}

#[test]
fn call_settings() {
    let reg = BridgeCall::register(&config());
    assert_eq!(reg.path().map_err(|e| e.to_string()), Ok("/v1/environments/bridge".to_string()));
    assert_eq!(reg.method(), HttpMethod::Post);
    assert_eq!(reg.timeout_secs(), 15);
    assert_eq!(reg.context(), "Registration");
    assert!(reg.accepts(200));
    assert!(!reg.accepts(204));
    assert!(reg.uses_access_token());
    assert_eq!(
        reg.bearer(None).err().map(|e| e.to_string()),
        Some("Request failed: Remote Control requires valid authentication. Please configure your access token or credentials.".to_string())
    );
    assert_eq!(reg.bearer(Some("at".into())).ok(), Some("at".to_string()));

    let poll = BridgeCall::Poll { environment_id: "e1".into(), environment_secret: "sec".into(), reclaim_older_than_ms: Some(5000) };
    assert_eq!(poll.method(), HttpMethod::Get);
    assert_eq!(poll.timeout_secs(), 10);
    assert_eq!(poll.bearer(None).ok(), Some("sec".to_string()));
    assert!(poll.body().is_none());
    assert_eq!(poll.query(), vec![("reclaim_older_than_ms".to_string(), "5000".to_string())]);

    let dereg = BridgeCall::Deregister { environment_id: "e1".into() };
    assert_eq!(dereg.method(), HttpMethod::Delete);
    assert!(dereg.accepts(204));
    assert!(!dereg.accepts(201));

    let archive = BridgeCall::ArchiveSession { session_id: "s1".into() };
    assert!(archive.done_without_body(409));
    assert!(!dereg.done_without_body(409));
    assert!(archive.check_response(204, &JsonValue::Null).is_ok());
    assert!(matches!(archive.check_response(500, &JsonValue::Null), Err(BridgeFatalError::Other { status: 500, .. })));

    let stop = BridgeCall::StopWork { environment_id: "e1".into(), work_id: "w1".into(), force: true };
    assert!(matches!(member(&stop.body().unwrap(), "force"), Some(JsonValue::Bool(true))));
    let reconnect = BridgeCall::ReconnectSession { environment_id: "e1".into(), session_id: "s1".into() };
    assert!(matches!(member(&reconnect.body().unwrap(), "session_id"), Some(JsonValue::String(x)) if x == "s1"));
    let ack = BridgeCall::Acknowledge { environment_id: "e1".into(), work_id: "w1".into(), session_token: "st".into() };
    assert!(matches!(ack.body(), Some(JsonValue::Object(m)) if m.is_empty()));
    assert_eq!(ack.bearer(None).ok(), Some("st".to_string()));

    let event = PermissionResponseEvent {
        type_: "control_response".into(),
        response: PermissionResponseInner { subtype: "success".into(), request_id: "r1".into(), response: JsonValue::Null },
    };
    let send = BridgeCall::send_permission_response_event("s1".into(), &event, "st".into());
    assert_eq!(send.path().map_err(|e| e.to_string()), Ok("/v1/sessions/s1/events".to_string()));
    match send.body() {
        Some(body) => match member(&body, "events") {
            Some(JsonValue::Array(items)) => {
                assert_eq!(items.len(), 1);
                assert!(matches!(member(&items[0], "type"), Some(JsonValue::String(t)) if t == "control_response"));
            },
            _ => panic!("events missing"),
        },
        None => panic!("no body"),
    }
}

#[test]
fn registration_body_fields() {
    let body = register_request_body(&config());
    assert!(matches!(member(&body, "machine_name"), Some(JsonValue::String(x)) if x == "box"));
    assert!(matches!(member(&body, "directory"), Some(JsonValue::String(x)) if x == "/work"));
    assert!(matches!(member(&body, "git_repo_url"), Some(JsonValue::Null)));
    assert!(matches!(member(&body, "max_sessions"), Some(JsonValue::Number(JsonNumber::PosInt(4)))));
    assert!(matches!(member(&body, "environment_id"), Some(JsonValue::String(x)) if x == "env-9"));
    let meta = member(&body, "metadata").unwrap();
    assert!(matches!(member(meta, "worker_type"), Some(JsonValue::String(x)) if x == "claude_code"));
}

#[test]
fn response_readers() {
    let ok = obj(vec![("environment_id", s("e1")), ("environment_secret", s("sec"))]);
    assert_eq!(register_result(&ok).map_err(|e| e.to_string()), Ok(("e1".to_string(), "sec".to_string())));
    let no_secret = obj(vec![("environment_id", s("e1"))]);
    assert_eq!(register_result(&no_secret).err().map(|e| e.to_string()), Some("Invalid response: missing environment_secret".to_string()));
    let no_id = obj(vec![("environment_id", JsonValue::Number(JsonNumber::PosInt(3)))]);
    assert_eq!(register_result(&no_id).err().map(|e| e.to_string()), Some("Invalid response: missing environment_id".to_string()));

    assert!(!poll_has_work(&JsonValue::Null));
    assert!(!poll_has_work(&obj(vec![])));
    assert!(poll_has_work(&obj(vec![("id", s("w"))])));

    let hb = obj(vec![("lease_extended", JsonValue::Bool(true)), ("state", s("active"))]);
    assert_eq!(heartbeat_result(&hb), (true, "active".to_string()));
    assert_eq!(heartbeat_result(&s("x")), (false, String::new()));
}

#[test]
fn headers() {
    let h = build_headers("tok", "1.2.3", Some("dev".to_string()));
    assert_eq!(
        h,
        vec![
            ("authorization".to_string(), "Bearer tok".to_string()),
            ("content-type".to_string(), "application/json".to_string()),
            ("x-bridge-version".to_string(), "1.2.3".to_string()),
            ("x-bridge-device-token".to_string(), "dev".to_string()),
        ]
    );
    assert_eq!(build_headers("tok", "1", None).len(), 3);
}

#[test]
fn header_values_refuse_control_characters() {
    assert!(runtime::bridge::api::is_header_value("tok-123"));
    assert!(runtime::bridge::api::is_header_value("a\tb"));
    assert!(runtime::bridge::api::is_header_value("caf\u{e9}"));
    assert!(runtime::bridge::api::is_header_value(""));
    assert!(!runtime::bridge::api::is_header_value("a\nb"));
    assert!(!runtime::bridge::api::is_header_value("a\u{7f}"));
    assert!(!runtime::bridge::api::is_header_value("\u{1f}"));
}

#[test]
fn call_answers_from_status_and_body() {
    let archive = BridgeCall::ArchiveSession { session_id: "s1".into() };
    assert!(matches!(archive.answer(409, Err("not json".into())), Ok(None)));
    assert!(matches!(archive.answer(200, Err("not json".into())), Err(BridgeFatalError::InvalidResponse(m)) if m == "not json"));
    let hb = BridgeCall::Heartbeat { environment_id: "e1".into(), work_id: "w1".into(), session_token: "st".into() };
    assert!(matches!(hb.answer(409, Ok(JsonValue::Null)), Err(BridgeFatalError::Other { status: 409, .. })));
    assert!(matches!(hb.answer(401, Ok(JsonValue::Null)), Err(BridgeFatalError::AuthenticationFailed { .. })));
    match hb.answer(200, Ok(obj(vec![("lease_extended", JsonValue::Bool(true))]))) {
        Ok(Some(body)) => assert!(matches!(member(&body, "lease_extended"), Some(JsonValue::Bool(true)))),
        _ => panic!("expected the body"),
    }
}

#[test]
fn registration_takes_its_token_first() {
    assert!(BridgeCall::register(&config()).token_first());
    assert!(!BridgeCall::ArchiveSession { session_id: "s1".into() }.token_first());
    assert!(!BridgeCall::Deregister { environment_id: "e1".into() }.token_first());
}

#[test]
fn base_and_call_urls() {
    assert!(runtime::bridge::api::parse_base_url("not a url").is_err());
    let base = runtime::bridge::api::parse_base_url("https://api.example.com").unwrap();
    let dereg = BridgeCall::Deregister { environment_id: "e1".into() };
    assert_eq!(
        runtime::bridge::api::call_url(&base, &dereg).unwrap().as_str(),
        "https://api.example.com/v1/environments/bridge/e1"
    );
    let bad = BridgeCall::Deregister { environment_id: "e/1".into() };
    assert_eq!(
        runtime::bridge::api::call_url(&base, &bad).err().map(|e| e.to_string()),
        Some("Request failed: Invalid environmentId: contains unsafe characters".to_string())
    );
    let err = BridgeFatalError::RequestError("x".into());
    assert_eq!(err.clone().to_string(), err.to_string());
}
