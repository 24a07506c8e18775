use runtime::json::{JsonNumber, JsonValue};
use runtime::text::{decimal_string, str_eq, trim_end_matches_char};

#[test]
fn lookups() {
    let v = JsonValue::Object(vec![
        ("a".to_string(), JsonValue::Bool(true)),
        ("n".to_string(), JsonValue::Number(JsonNumber::PosInt(7))),
        ("neg".to_string(), JsonValue::Number(JsonNumber::NegInt(-7))),
        ("s".to_string(), JsonValue::String("x".to_string())),
    ]);
    assert_eq!(v.get("a").and_then(|x| x.as_bool()), Some(true));
    assert_eq!(v.get("n").and_then(|x| x.as_u64()), Some(7));
    assert_eq!(v.get("neg").and_then(|x| x.as_u64()), None);
    assert_eq!(v.get("s").and_then(|x| x.as_str()), Some("x"));
    assert!(v.get("missing").is_none());
    assert!(JsonValue::Array(vec![]).get("a").is_none());
    assert!(JsonValue::Null.is_empty_payload());
    assert!(JsonValue::Object(vec![]).is_empty_payload());
    assert!(!v.is_empty_payload());
    assert!(!JsonValue::Array(vec![]).is_empty_payload());
    let copy = v.deep_clone();
    assert_eq!(copy.get("s").and_then(|x| x.as_str()), Some("x"));
}

#[test]
fn text_helpers() {
    assert!(str_eq("abc", "abc"));
    assert!(!str_eq("abc", "abd"));
    assert!(!str_eq("abc", "ab"));
    assert_eq!(decimal_string(0), "0");
    assert_eq!(decimal_string(409), "409");
    assert_eq!(decimal_string(u64::MAX), u64::MAX.to_string());
    assert_eq!(trim_end_matches_char("http://a///", '/'), "http://a");
    assert_eq!(trim_end_matches_char("///", '/'), "");
    assert_eq!(trim_end_matches_char("", '/'), "");
}
