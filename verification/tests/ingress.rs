use std::time::Duration;

use runtime::bridge::api::BridgeFatalError;
use runtime::bridge::ingress::{
    ControlCommand, IngressConfig, IngressError, IngressEvent, IngressSender, ReadStep, SessionIngress, WsFrame,
};
use runtime::bridge::types::{
    PermissionResponseEvent, PermissionResponseInner, SessionActivity, SessionActivityType, SessionDoneStatus,
};
use runtime::json::{JsonNumber, JsonValue};

fn as_text(v: &JsonValue) -> Option<String> {
    match v {
        JsonValue::String(s) => Some(s.clone()),
        _ => None,
    }
}

fn member<'a>(v: &'a JsonValue, key: &str) -> Option<&'a JsonValue> {
    match v {
        JsonValue::Object(m) => m.iter().find(|(k, _)| k == key).map(|(_, v)| v),
        _ => None,
    }
}

#[test]
fn test_parse_user_input_simple() {
    let text = r#"{"type":"user_input","data":"Hello, world!"}"#;
    let event = SessionIngress::parse_message(text);
    match event {
        IngressEvent::UserInput(s) => assert_eq!(s, "Hello, world!"),
        _ => panic!("Expected UserInput event"),
    }
}

#[test]
fn test_parse_user_input_with_text_field() {
    let text = r#"{"type":"user_input","data":{"text":"Hello from nested!"}}"#;
    let event = SessionIngress::parse_message(text);
    match event {
        IngressEvent::UserInput(s) => assert_eq!(s, "Hello from nested!"),
        _ => panic!("Expected UserInput event"),
    }
}

#[test]
fn test_parse_control_command_stop() {
    let text = r#"{"type":"control_command","data":{"command":"stop"}}"#;
    let event = SessionIngress::parse_message(text);
    match event {
        IngressEvent::ControlCommand(ControlCommand::Stop) => {},
        _ => panic!("Expected Stop control command"),
    }
}

#[test]
fn test_parse_control_command_pause() {
    let text = r#"{"type":"control_command","data":{"command":"pause"}}"#;
    let event = SessionIngress::parse_message(text);
    match event {
        IngressEvent::ControlCommand(ControlCommand::Pause) => {},
        _ => panic!("Expected Pause control command"),
    }
}

#[test]
fn test_parse_control_command_resume() {
    let text = r#"{"type":"control_command","data":{"command":"resume"}}"#;
    let event = SessionIngress::parse_message(text);
    match event {
        IngressEvent::ControlCommand(ControlCommand::Resume) => {},
        _ => panic!("Expected Resume control command"),
    }
}

#[test]
fn test_parse_permission_request() {
    let text = r#"{
        "type":"permission_request",
        "data":{
            "request_id":"req-123",
            "tool_name":"read_file",
            "tool_input":{"path":"/test/file.txt"},
            "timeout_ms":30000
        }
    }"#;
    let event = SessionIngress::parse_message(text);
    match event {
        IngressEvent::PermissionRequest(req) => {
            assert_eq!(req.request_id, "req-123");
            assert_eq!(req.tool_name, "read_file");
        },
        _ => panic!("Expected PermissionRequest event"),
    }
}

#[test]
fn test_parse_raw_message_fallback() {
    let text = r#"{"type":"unknown_type","data":{"foo":"bar"}}"#;
    let event = SessionIngress::parse_message(text);
    match event {
        IngressEvent::Raw(_) => {},
        _ => panic!("Expected Raw event for unknown type"),
    }
}

#[test]
fn test_parse_plain_text_fallback() {
    let text = "This is just plain text, not JSON";
    let event = SessionIngress::parse_message(text);
    match event {
        IngressEvent::UserInput(s) => assert_eq!(s, "This is just plain text, not JSON"),
        _ => panic!("Expected UserInput event for plain text"),
    }
}

#[test]
fn test_ingress_config_default() {
    let config = IngressConfig::default();
    assert_eq!(config.ingress_url, "");
    assert_eq!(config.session_token, "");
    assert_eq!(config.reconnect_attempts, 5);
    assert_eq!(config.reconnect_delay, Duration::from_secs(2));
    assert_eq!(config.ping_interval, Duration::from_secs(30));
}

#[test]
fn test_session_ingress_new() {
    let config = IngressConfig::default();
    let ingress = SessionIngress::new(config);
    assert!(!ingress.is_connected());
}

#[test]
fn permission_request_details_are_kept() {
    let text = r#"{"type":"permission_request","data":{"request_id":"r1","tool_name":"bash","tool_input":[1,2],"timeout_ms":250}}"#;
    match SessionIngress::parse_message(text) {
        IngressEvent::PermissionRequest(req) => {
            assert_eq!(req.timeout_ms, Some(250));
            match req.tool_input {
                JsonValue::Array(items) => assert_eq!(items.len(), 2),
                _ => panic!("tool input lost"),
            }
        },
        _ => panic!("Expected PermissionRequest event"),
    }
}

#[test]
fn permission_request_with_bad_timeout_is_raw() {
    let text = r#"{"type":"permission_request","data":{"request_id":"r1","tool_name":"bash","tool_input":null,"timeout_ms":-5}}"#;
    match SessionIngress::parse_message(text) {
        IngressEvent::Raw(v) => assert_eq!(member(&v, "type").and_then(as_text), Some("permission_request".to_string())),
        _ => panic!("Expected Raw event"),
    }
}

#[test]
fn permission_request_without_tool_input_is_raw() {
    let text = r#"{"type":"permission_request","data":{"request_id":"r1","tool_name":"bash"}}"#;
    assert!(matches!(SessionIngress::parse_message(text), IngressEvent::Raw(_)));
}

#[test]
fn permission_request_in_array_form() {
    let text = r#"{"type":"permission_request","data":["r9","edit",{},null]}"#;
    match SessionIngress::parse_message(text) {
        IngressEvent::PermissionRequest(req) => {
            assert_eq!(req.request_id, "r9");
            assert_eq!(req.tool_name, "edit");
            assert_eq!(req.timeout_ms, None);
        },
        _ => panic!("Expected PermissionRequest event"),
    }
}

#[test]
fn envelope_in_array_form() {
    let text = r#"["user_input","hi there"]"#;
    match SessionIngress::parse_message(text) {
        IngressEvent::UserInput(s) => assert_eq!(s, "hi there"),
        _ => panic!("Expected UserInput event"),
    }
}

#[test]
fn json_without_envelope_is_user_input() {
    let text = r#"{"kind":"user_input"}"#;
    match SessionIngress::parse_message(text) {
        IngressEvent::UserInput(s) => assert_eq!(s, text),
        _ => panic!("Expected UserInput event"),
    }
}

#[test]
fn user_input_without_text_is_raw_with_its_data() {
    let text = r#"{"type":"user_input","data":{"other":1}}"#;
    match SessionIngress::parse_message(text) {
        IngressEvent::Raw(v) => {
            assert_eq!(member(&v, "type").and_then(as_text), Some("user_input".to_string()));
            let data = member(&v, "data").expect("data kept");
            assert!(matches!(member(data, "other"), Some(JsonValue::Number(JsonNumber::PosInt(1)))));
        },
        _ => panic!("Expected Raw event"),
    }
}

#[test]
fn control_command_without_data_is_raw_with_null_data() {
    let text = r#"{"type":"control_command"}"#;
    match SessionIngress::parse_message(text) {
        IngressEvent::Raw(v) => assert!(matches!(member(&v, "data"), Some(JsonValue::Null))),
        _ => panic!("Expected Raw event"),
    }
}

#[test]
fn control_command_update_config_and_custom() {
    let update = r#"{"type":"control_command","data":{"command":"update_config","config":{"model":"x"}}}"#;
    match SessionIngress::parse_message(update) {
        IngressEvent::ControlCommand(ControlCommand::UpdateConfig(c)) => {
            assert_eq!(member(&c, "model").and_then(as_text), Some("x".to_string()))
        },
        _ => panic!("Expected UpdateConfig"),
    }
    let update_missing = r#"{"type":"control_command","data":{"command":"update_config"}}"#;
    assert!(matches!(
        SessionIngress::parse_message(update_missing),
        IngressEvent::ControlCommand(ControlCommand::UpdateConfig(JsonValue::Null))
    ));
    let custom = r#"{"type":"control_command","data":{"command":"rewind","steps":2}}"#;
    match SessionIngress::parse_message(custom) {
        IngressEvent::ControlCommand(ControlCommand::Custom(name, data)) => {
            assert_eq!(name, "rewind");
            assert!(matches!(member(&data, "steps"), Some(JsonValue::Number(JsonNumber::PosInt(2)))));
        },
        _ => panic!("Expected Custom"),
    }
    let nameless = r#"{"type":"control_command","data":{"steps":2}}"#;
    match SessionIngress::parse_message(nameless) {
        IngressEvent::ControlCommand(ControlCommand::Custom(name, _)) => assert_eq!(name, "unknown"),
        _ => panic!("Expected Custom"),
    }
}

#[test]
fn read_steps() {
    assert!(matches!(SessionIngress::read_step(WsFrame::Ping), ReadStep::Emit(IngressEvent::Ping)));
    assert!(matches!(SessionIngress::read_step(WsFrame::Close), ReadStep::EmitAndStop(IngressEvent::Disconnected)));
    assert!(matches!(SessionIngress::read_step(WsFrame::Failed), ReadStep::Stop));
    assert!(matches!(SessionIngress::read_step(WsFrame::Pong), ReadStep::Skip));
    assert!(matches!(SessionIngress::read_step(WsFrame::Frame), ReadStep::Skip));
    match SessionIngress::read_step(WsFrame::Binary("héllo".as_bytes().to_vec())) {
        ReadStep::Emit(IngressEvent::UserInput(s)) => assert_eq!(s, "héllo"),
        _ => panic!("binary text lost"),
    }
    assert!(matches!(SessionIngress::read_step(WsFrame::Binary(vec![0xff, 0xfe])), ReadStep::Skip));
    match SessionIngress::read_step(WsFrame::Text(r#"{"type":"user_input","data":"x"}"#.to_string())) {
        ReadStep::Emit(IngressEvent::UserInput(s)) => assert_eq!(s, "x"),
        _ => panic!("text frame lost"),
    }
}

#[test]
fn handshake_and_url_checks() {
    let mut config = IngressConfig::default();
    config.ingress_url = "not a url".to_string();
    config.session_token = "tok".to_string();
    let mut ingress = SessionIngress::new(config);
    match ingress.check_url() {
        Err(IngressError::WebSocket(m)) => assert!(m.starts_with("Invalid URL: ") && m.len() > "Invalid URL: ".len()),
        _ => panic!("bad URL accepted"),
    }
    assert_eq!(ingress.authorization(), "Bearer tok");
    match ingress.handshake_result(200) {
        Err(IngressError::WebSocket(m)) => assert_eq!(m, "Unexpected status code: 200 OK"),
        _ => panic!("status 200 accepted"),
    }
    assert!(!ingress.is_connected());
    assert!(ingress.handshake_result(101).is_ok());
    assert!(ingress.is_connected());
    ingress.mark_disconnected();
    assert!(!ingress.is_connected());

    let mut good = IngressConfig::default();
    good.ingress_url = "ws://localhost:8765".to_string();
    assert!(SessionIngress::new(good).check_url().is_ok());
}

#[test]
fn ingress_error_texts() {
    assert_eq!(IngressError::WebSocket("x".into()).to_string(), "WebSocket error: x");
    assert_eq!(IngressError::Http("x".into()).to_string(), "HTTP error: x");
    assert_eq!(IngressError::Protocol("x".into()).to_string(), "Protocol error: x");
    assert_eq!(IngressError::ConnectionClosed.to_string(), "Connection closed");
    assert_eq!(IngressError::Send("x".into()).to_string(), "Send error: x");
    assert_eq!(
        IngressError::from(BridgeFatalError::RequestError("boom".into())).to_string(),
        "Bridge fatal error: Request failed: boom"
    );
}

#[test]
fn sender_bodies_and_url() {
    let sender = IngressSender::new("tok".to_string(), "http://host:1//".to_string());
    assert_eq!(sender.events_url(), "http://host:1/v1/sessions/events");
    assert_eq!(sender.authorization(), "Bearer tok");

    let done = IngressSender::session_done_body(SessionDoneStatus::Interrupted);
    assert_eq!(member(&done, "type").and_then(as_text), Some("session_done".to_string()));
    assert_eq!(member(&done, "status").and_then(as_text), Some("interrupted".to_string()));

    let activity = SessionActivity { type_: SessionActivityType::ToolStart, summary: "running".into(), timestamp: 42 };
    let body = IngressSender::activity_body(&activity);
    assert_eq!(member(&body, "type").and_then(as_text), Some("session_activity".to_string()));
    let inner = member(&body, "activity").expect("activity");
    assert_eq!(member(inner, "type").and_then(as_text), Some("tool_start".to_string()));
    assert_eq!(member(inner, "summary").and_then(as_text), Some("running".to_string()));
    assert!(matches!(member(inner, "timestamp"), Some(JsonValue::Number(JsonNumber::PosInt(42)))));

    let event = PermissionResponseEvent {
        type_: "control_response".into(),
        response: PermissionResponseInner { subtype: "success".into(), request_id: "r1".into(), response: JsonValue::Bool(true) },
    };
    let body = IngressSender::permission_response_body(&event);
    assert_eq!(member(&body, "type").and_then(as_text), Some("control_response".to_string()));
    let inner = member(&body, "response").expect("response");
    assert_eq!(member(inner, "request_id").and_then(as_text), Some("r1".to_string()));
    assert!(matches!(member(inner, "response"), Some(JsonValue::Bool(true))));
}

#[test]
fn serialization_error_text() {
    let err = serde_json::from_str::<serde_json::Value>("{").unwrap_err();
    let detail = err.to_string();
    let text = IngressError::Serialization(err).to_string();
    assert_eq!(text, format!("Serialization error: {}", detail));
}

fn user_input(text: &str) -> Option<String> {
    match SessionIngress::parse_message(text) {
        IngressEvent::UserInput(s) => Some(s),
        _ => None,
    }
}

#[test]
fn duplicate_envelope_fields_make_user_input() {
    let twice_type = r#"{"type":"user_input","type":"control_command","data":"hi"}"#;
    assert_eq!(user_input(twice_type), Some(twice_type.to_string()));
    let twice_data = r#"{"type":"user_input","data":"a", "data" : "b"}"#;
    assert_eq!(user_input(twice_data), Some(twice_data.to_string()));
    let escaped_name = r#"{"typ\u0065":"user_input","type":"user_input","data":"hi"}"#;
    assert_eq!(user_input(escaped_name), Some(escaped_name.to_string()));
}

#[test]
fn other_repeated_names_keep_the_envelope() {
    assert_eq!(user_input(r#"{"type":"user_input","data":"hi","x":1,"x":2}"#), Some("hi".to_string()));
    assert_eq!(user_input(r#"{"type":"user_input","data":{"text":"a","text":"b"}}"#), Some("b".to_string()));
    assert_eq!(user_input(r#"{"type":"user_input","data":"type: \"type\""}"#), Some("type: \"type\"".to_string()));
}

#[test]
fn skipped_members_need_only_json_syntax() {
    assert_eq!(user_input(r#"{"type":"user_input","data":"hi","x":1e400}"#), Some("hi".to_string()));
    assert_eq!(user_input(r#"{"type":"user_input","x":"\ud800","data":"hi"}"#), Some("hi".to_string()));
    let deep = format!(r#"{{"type":"user_input","data":"hi","x":{}{}}}"#, "[".repeat(200), "]".repeat(200));
    assert_eq!(user_input(&deep), Some("hi".to_string()));
    match SessionIngress::parse_message(r#"{"x":1e400,"type":"control_command","data":{"command":"stop"}}"#) {
        IngressEvent::ControlCommand(ControlCommand::Stop) => {},
        _ => panic!("expected a stop command"),
    }
}

#[test]
fn envelope_fields_still_need_valid_values() {
    for text in [
        r#"{"\ud800":1,"type":"user_input","data":"hi"}"#,
        r#"{"type":"user_input","data":1e400}"#,
        r#"{"type":"user_input","type":"user_input","data":"hi","x":1e400}"#,
        r#"{"data":"hi","x":1e400}"#,
        r#"{"type":"user_input","data":"hi","x":1e400"#,
    ] {
        assert_eq!(user_input(text), Some(text.to_string()));
    }
    let deep_data = format!(r#"{{"type":"user_input","data":{}{}}}"#, "[".repeat(200), "]".repeat(200));
    assert_eq!(user_input(&deep_data), Some(deep_data.clone()));
}

fn websocket_error(r: Result<http::Request<()>, IngressError>) -> Option<String> {
    match r {
        Err(IngressError::WebSocket(m)) => Some(m),
        _ => None,
    }
}

#[test]
fn handshake_requests() {
    let mut config = IngressConfig::default();
    config.ingress_url = "ws://localhost:8765/session".to_string();
    config.session_token = "tok".to_string();
    let request = SessionIngress::new(config.clone()).handshake_request().unwrap();
    assert_eq!(request.uri(), "ws://localhost:8765/session");
    assert_eq!(request.headers().get("Authorization").unwrap(), "Bearer tok");

    let mut bad_url = config.clone();
    bad_url.ingress_url = "not a url".to_string();
    assert_eq!(
        websocket_error(SessionIngress::new(bad_url).handshake_request()),
        Some("Invalid URL: relative URL without a base".to_string())
    );

    let mut bad_token = config;
    bad_token.session_token = "a\nb".to_string();
    let m = websocket_error(SessionIngress::new(bad_token).handshake_request()).unwrap();
    assert!(m.starts_with("Request build error: "));
}

#[test]
fn serialization_errors_show_serde_text() {
    let e = serde_json::from_str::<u8>("x").unwrap_err();
    let text = e.to_string();
    assert_eq!(IngressError::from(e).to_string(), format!("Serialization error: {}", text));
}

#[test]
fn ingress_values_clone() {
    let event = IngressEvent::ControlCommand(ControlCommand::Stop);
    assert!(matches!(event.clone(), IngressEvent::ControlCommand(ControlCommand::Stop)));
    let v = JsonValue::Array(vec![JsonValue::Number(JsonNumber::PosInt(3)), JsonValue::String("a".into())]);
    match v.clone() {
        JsonValue::Array(items) => assert_eq!(items.len(), 2),
        _ => panic!("expected an array"),
    }
}
