use std::time::Duration;

use vstd::prelude::*;
use vstd::string::*;
use vstd::utf8::{decode_utf8, valid_utf8};

use crate::bridge::api::{parse_url, url_parse_failure, BridgeFatalError};
use crate::bridge::types::{PermissionResponseEvent, SessionActivity, SessionActivityType, SessionDoneStatus};
use crate::json::{
    ignorable_json_text, json_text_ignorable, json_text_parse, lookup, members_view, opt_json_view, parse_json_text, JsonNumber, JsonValue, JsonView,
    NumberView,
};
use crate::json_keys::{decodes_to, is_json_space, object_members, scan, span_decodes_to};
use crate::text::{concat3, str_eq, trim_end_char, trim_end_matches_char};

verus! {

/// A command sent to a running session.
#[derive(Debug, Clone)]
pub enum ControlCommand {
    /// Stop the current session
    Stop,
    /// Pause the current session
    Pause,
    /// Resume a paused session
    Resume,
    /// Update session configuration
    UpdateConfig(JsonValue),
    /// Any other command, by name, with the whole payload
    Custom(String, JsonValue),
}

pub enum CommandView {
    Stop,
    Pause,
    Resume,
    UpdateConfig(JsonView),
    Custom(Seq<char>, JsonView),
}

impl View for ControlCommand {
    type V = CommandView;

    open spec fn view(&self) -> CommandView {
        match self {
            ControlCommand::Stop => CommandView::Stop,
            ControlCommand::Pause => CommandView::Pause,
            ControlCommand::Resume => CommandView::Resume,
            ControlCommand::UpdateConfig(c) => CommandView::UpdateConfig(c@),
            ControlCommand::Custom(name, data) => CommandView::Custom(name@, data@),
        }
    }
}

/// A request to approve a tool call.
#[derive(Debug, Clone)]
pub struct PermissionRequest {
    pub request_id: String,
    pub tool_name: String,
    pub tool_input: JsonValue,
    pub timeout_ms: Option<u64>,
}

pub struct PermissionRequestView {
    pub request_id: Seq<char>,
    pub tool_name: Seq<char>,
    pub tool_input: JsonView,
    pub timeout_ms: Option<u64>,
}

impl View for PermissionRequest {
    type V = PermissionRequestView;

    open spec fn view(&self) -> PermissionRequestView {
        PermissionRequestView {
            request_id: self.request_id@,
            tool_name: self.tool_name@,
            tool_input: self.tool_input@,
            timeout_ms: self.timeout_ms,
        }
    }
}

/// An event that arrives from the session ingress.
#[derive(Debug, Clone)]
pub enum IngressEvent {
    /// Connected to the ingress endpoint
    Connected,
    /// Disconnected from the ingress endpoint
    Disconnected,
    /// A message typed by the user
    UserInput(String),
    /// A control command
    ControlCommand(ControlCommand),
    /// A permission request
    PermissionRequest(PermissionRequest),
    /// Heartbeat ping
    Ping,
    /// A message of no known shape
    Raw(JsonValue),
}

pub enum EventView {
    Connected,
    Disconnected,
    UserInput(Seq<char>),
    ControlCommand(CommandView),
    PermissionRequest(PermissionRequestView),
    Ping,
    Raw(JsonView),
}

impl View for IngressEvent {
    type V = EventView;

    open spec fn view(&self) -> EventView {
        match self {
            IngressEvent::Connected => EventView::Connected,
            IngressEvent::Disconnected => EventView::Disconnected,
            IngressEvent::UserInput(s) => EventView::UserInput(s@),
            IngressEvent::ControlCommand(c) => EventView::ControlCommand(c@),
            IngressEvent::PermissionRequest(p) => EventView::PermissionRequest(p@),
            IngressEvent::Ping => EventView::Ping,
            IngressEvent::Raw(v) => EventView::Raw(v@),
        }
    }
}

/// An optional member whose null value counts as absent.
pub open spec fn non_null(v: Option<JsonView>) -> Option<JsonView> {
    match v {
        Some(JsonView::Null) => None,
        other => other,
    }
}

/// The envelope of an ingress message: its `type` and its optional `data`. An object needs
/// a string member `type`; a two-element array gives them by position.
pub open spec fn incoming_message(v: JsonView) -> Option<(Seq<char>, Option<JsonView>)> {
    match v {
        JsonView::Object(members) => match lookup(members, "type"@) {
            Some(JsonView::Str(t)) => Some((t, non_null(lookup(members, "data"@)))),
            _ => None,
        },
        JsonView::Array(items) => if items.len() == 2 && items[0] is Str {
            Some((items[0]->Str_0, non_null(Some(items[1]))))
        } else {
            None
        },
        _ => None,
    }
}

/// The control command that a payload names in its `command` member.
pub open spec fn control_command_of(data: JsonView) -> CommandView {
    match data.get("command"@) {
        Some(JsonView::Str(c)) => if c == "stop"@ {
            CommandView::Stop
        } else if c == "pause"@ {
            CommandView::Pause
        } else if c == "resume"@ {
            CommandView::Resume
        } else if c == "update_config"@ {
            CommandView::UpdateConfig(data.index("config"@))
        } else {
            CommandView::Custom(c, data)
        },
        _ => CommandView::Custom("unknown"@, data),
    }
}

/// The optional timeout of a permission request: absent or null gives `Some(None)`,
/// a non-negative integer `n` gives `Some(Some(n))`, anything else is invalid (`None`).
pub open spec fn timeout_member(v: Option<JsonView>) -> Option<Option<u64>> {
    match v {
        None => Some(None),
        Some(JsonView::Null) => Some(None),
        Some(JsonView::Number(NumberView::PosInt(u))) => Some(Some(u)),
        _ => None,
    }
}

/// A permission request read from a payload: an object with string members `request_id`
/// and `tool_name`, a member `tool_input` and an optional `timeout_ms`; or a four-element
/// array giving them by position.
pub open spec fn permission_request_of(v: JsonView) -> Option<PermissionRequestView> {
    match v {
        JsonView::Object(m) => match (
            lookup(m, "request_id"@),
            lookup(m, "tool_name"@),
            lookup(m, "tool_input"@),
            timeout_member(lookup(m, "timeout_ms"@)),
        ) {
            (Some(JsonView::Str(r)), Some(JsonView::Str(t)), Some(input), Some(timeout)) => Some(
                PermissionRequestView { request_id: r, tool_name: t, tool_input: input, timeout_ms: timeout },
            ),
            _ => None,
        },
        JsonView::Array(items) => if items.len() == 4 && items[0] is Str && items[1] is Str
            && timeout_member(Some(items[3])) is Some {
            Some(
                PermissionRequestView {
                    request_id: items[0]->Str_0,
                    tool_name: items[1]->Str_0,
                    tool_input: items[2],
                    timeout_ms: timeout_member(Some(items[3]))->Some_0,
                },
            )
        } else {
            None
        },
        _ => None,
    }
}

/// The raw form of a message: an object with members `type` and `data` (null when absent).
pub open spec fn raw_message(t: Seq<char>, data: Option<JsonView>) -> JsonView {
    JsonView::Object(
        seq![
            ("type"@, JsonView::Str(t)),
            (
                "data"@,
                match data {
                    Some(d) => d,
                    None => JsonView::Null,
                },
            ),
        ],
    )
}

/// The event for a message of type `t` with payload `data`.
pub open spec fn typed_message_event(t: Seq<char>, data: Option<JsonView>) -> EventView {
    if t == "user_input"@ {
        match data {
            Some(d) => match d {
                JsonView::Str(s) => EventView::UserInput(s),
                _ => match d.get("text"@) {
                    Some(JsonView::Str(s)) => EventView::UserInput(s),
                    _ => EventView::Raw(raw_message(t, data)),
                },
            },
            None => EventView::Raw(raw_message(t, data)),
        }
    } else if t == "control_command"@ {
        match data {
            Some(d) => EventView::ControlCommand(control_command_of(d)),
            None => EventView::Raw(raw_message(t, data)),
        }
    } else if t == "permission_request"@ {
        match data {
            Some(d) => match permission_request_of(d) {
                Some(p) => EventView::PermissionRequest(p),
                None => EventView::Raw(raw_message(t, data)),
            },
            None => EventView::Raw(raw_message(t, data)),
        }
    } else {
        EventView::Raw(raw_message(t, data))
    }
}

/// Whether the `k`-th member name of the object in `text` reads as `word`.
pub open spec fn member_named(text: Seq<char>, k: int, word: Seq<char>) -> bool {
    let span = scan(text).keys[k];
    decodes_to(text.subrange(span.0, span.1), word)
}

/// Whether the object in `text` names one of the envelope's fields, `type` or `data`,
/// twice. The envelope reader refuses such a text, though a parsed document keeps only the
/// last of the two.
pub open spec fn duplicate_envelope_field(text: Seq<char>) -> bool {
    exists|a: int, b: int|
        0 <= a < b < scan(text).keys.len() && ((member_named(text, a, "type"@) && member_named(text, b, "type"@))
            || (member_named(text, a, "data"@) && member_named(text, b, "data"@)))
}

/// Whether the object in `text` names the field `type` or `data` twice.
pub fn has_duplicate_envelope_field(text: &str) -> (r: bool)
    ensures
        r == duplicate_envelope_field(text@),
{
    let (spans, _) = object_members(text);
    let ghost keys = scan(text@).keys;
    let mut seen_type = false;
    let mut seen_data = false;
    let mut i: usize = 0;
    while i < spans.len()
        invariant
            i <= spans@.len(),
            spans@.len() == keys.len(),
            keys == scan(text@).keys,
            forall|k: int|
                0 <= k < spans@.len() ==> (#[trigger] spans@[k]).0 as int == keys[k].0 && spans@[k].1 as int
                    == keys[k].1,
            forall|k: int| 0 <= k < spans@.len() ==> (#[trigger] spans@[k]).0 <= spans@[k].1 <= text@.len(),
            seen_type == exists|a: int| 0 <= a < i && member_named(text@, a, "type"@),
            seen_data == exists|a: int| 0 <= a < i && member_named(text@, a, "data"@),
            forall|a: int, b: int|
                0 <= a < b < i ==> !((member_named(text@, a, "type"@) && member_named(text@, b, "type"@)) || (
                member_named(text@, a, "data"@) && member_named(text@, b, "data"@))),
        decreases spans@.len() - i,
    {
        let (start, end) = spans[i];
        let is_type = span_decodes_to(text, start, end, "type");
        let is_data = span_decodes_to(text, start, end, "data");
        assert(is_type == member_named(text@, i as int, "type"@));
        assert(is_data == member_named(text@, i as int, "data"@));
        if (is_type && seen_type) || (is_data && seen_data) {
            proof {
                if is_type && seen_type {
                    let a = choose|a: int| 0 <= a < i && member_named(text@, a, "type"@);
                    assert(0 <= a < i && member_named(text@, a, "type"@) && member_named(text@, i as int, "type"@));
                } else {
                    let a = choose|a: int| 0 <= a < i && member_named(text@, a, "data"@);
                    assert(0 <= a < i && member_named(text@, a, "data"@) && member_named(text@, i as int, "data"@));
                }
            }
            return true;
        }
        seen_type = seen_type || is_type;
        seen_data = seen_data || is_data;
        i = i + 1;
    }
    false
}

/// Whether the first character of `text` that is no white space opens an object.
pub open spec fn opens_object(text: Seq<char>) -> bool
    decreases text.len(),
{
    text.len() > 0 && (text[0] == '{' || (is_json_space(text[0]) && opens_object(text.drop_first())))
}

/// Whether a text opens an object.
pub fn text_opens_object(text: &str) -> (r: bool)
    ensures
        r == opens_object(text@),
{
    let n = text.unicode_len();
    let mut i: usize = 0;
    assert(text@.subrange(0, n as int) =~= text@);
    while i < n
        invariant
            n == text@.len(),
            i <= n,
            opens_object(text@) == opens_object(text@.subrange(i as int, n as int)),
        decreases n - i,
    {
        let c = text.get_char(i);
        assert(text@.subrange(i as int, n as int)[0] == c);
        assert(text@.subrange(i as int, n as int).drop_first() =~= text@.subrange(i + 1, n as int));
        if c == '{' {
            return true;
        }
        if !(c == ' ' || c == '\t' || c == '\n' || c == '\r') {
            return false;
        }
        i = i + 1;
    }
    false
}

/// The name that a member-name span of `text` reads as, where it reads as a string.
pub open spec fn member_name(text: Seq<char>, span: (int, int)) -> Option<Seq<char>> {
    match json_text_parse("\""@ + text.subrange(span.0, span.1) + "\""@) {
        Some(JsonView::Str(n)) => Some(n),
        _ => None,
    }
}

/// The envelope fields read so far: the `type`, and the `data` (itself `None` where the
/// member holds `null`), each once it was met.
pub struct EnvelopeFields {
    pub ty: Option<Seq<char>>,
    pub data: Option<Option<JsonView>>,
}

/// The envelope fields after the first `k` members of the object in `text`, as a reader of
/// the envelope takes them: every name must read as a string; `type` must hold a string and
/// `data` a JSON value (one level inside the envelope), each at most once; the values of
/// other members are skipped. `None` where the reader fails.
pub open spec fn envelope_fields(text: Seq<char>, k: nat) -> Option<EnvelopeFields>
    decreases k,
{
    if k == 0 {
        Some(EnvelopeFields { ty: None, data: None })
    } else {
        match envelope_fields(text, (k - 1) as nat) {
            None => None,
            Some(f) => {
                let value = text.subrange(scan(text).values[k - 1].0, scan(text).values[k - 1].1);
                match member_name(text, scan(text).keys[k - 1]) {
                    None => None,
                    Some(n) => if n == "type"@ {
                        match (f.ty, json_text_parse(value)) {
                            (None, Some(JsonView::Str(t))) => Some(EnvelopeFields { ty: Some(t), ..f }),
                            _ => None,
                        }
                    } else if n == "data"@ {
                        match (f.data, json_text_parse("["@ + value + "]"@)) {
                            (None, Some(JsonView::Array(items))) => if items.len() == 1 {
                                Some(EnvelopeFields { data: Some(non_null(Some(items[0]))), ..f })
                            } else {
                                None
                            },
                            _ => None,
                        }
                    } else {
                        Some(f)
                    },
                }
            },
        }
    }
}

/// The envelope of an object text that does not read as a JSON document, as the envelope
/// reader still takes it: the text must be one object in JSON's syntax (its unknown members
/// are only skipped, so a number out of range, a lone surrogate escape or a deep nesting
/// there does not matter), with a `type`.
pub open spec fn skipped_members_envelope(text: Seq<char>) -> Option<(Seq<char>, Option<JsonView>)> {
    if opens_object(text) && json_text_ignorable(text) && scan(text).keys.len() == scan(text).values.len() {
        match envelope_fields(text, scan(text).keys.len()) {
            Some(f) => match f.ty {
                Some(t) => Some((
                    t,
                    match f.data {
                        Some(d) => d,
                        None => None,
                    },
                )),
                None => None,
            },
            None => None,
        }
    } else {
        None
    }
}

/// Once the envelope reader fails, it fails on every longer run of members.
proof fn lemma_envelope_failure_stays(text: Seq<char>, k: nat, m: nat)
    requires
        k <= m,
        envelope_fields(text, k) is None,
    ensures
        envelope_fields(text, m) is None,
    decreases m,
{
    if k < m {
        lemma_envelope_failure_stays(text, k, (m - 1) as nat);
    }
}

fn json_str_of(v: Option<JsonValue>) -> (r: Option<String>)
    ensures
        match r {
            Some(s) => opt_json_view(v) == Some(JsonView::Str(s@)),
            None => !(opt_json_view(v) matches Some(JsonView::Str(_))),
        },
{
    match v {
        Some(JsonValue::String(s)) => Some(s),
        _ => None,
    }
}

/// Reads the envelope of an object text whose skipped members need not read as JSON.
pub fn skipped_members_parts(text: &str) -> (r: Option<(String, Option<JsonValue>)>)
    ensures
        match r {
            Some((t, d)) => skipped_members_envelope(text@) == Some((t@, opt_json_view(d))),
            None => skipped_members_envelope(text@) is None,
        },
{
    if !text_opens_object(text) || !ignorable_json_text(text) {
        return None;
    }
    let (keys, values) = object_members(text);
    if keys.len() != values.len() {
        return None;
    }
    let ghost st = scan(text@);
    let mut ty: Option<String> = None;
    let mut data: Option<Option<JsonValue>> = None;
    let mut k: usize = 0;
    while k < keys.len()
        invariant
            k <= keys@.len(),
            keys@.len() == values@.len(),
            st == scan(text@),
            crate::json_keys::spans_match(keys@, st.keys, text@.len() as int),
            crate::json_keys::spans_match(values@, st.values, text@.len() as int),
            envelope_fields(text@, k as nat) == Some(EnvelopeFields {
                ty: match ty {
                    Some(t) => Some(t@),
                    None => None,
                },
                data: match data {
                    Some(d) => Some(opt_json_view(d)),
                    None => None,
                },
            }),
        decreases keys@.len() - k,
    {
        let (ks, ke) = keys[k];
        let (vs, ve) = values[k];
        let ghost total = keys@.len() as nat;
        let name = parse_json_text(concat3("\"", text.substring_char(ks, ke), "\"").as_str());
        let value = text.substring_char(vs, ve);
        match json_str_of(name) {
            None => {
                proof {
                    lemma_envelope_failure_stays(text@, (k + 1) as nat, total);
                }
                return None;
            },
            Some(n) => {
                if str_eq(n.as_str(), "type") {
                    if ty.is_some() {
                        proof {
                            lemma_envelope_failure_stays(text@, (k + 1) as nat, total);
                        }
                        return None;
                    }
                    match json_str_of(parse_json_text(value)) {
                        Some(t) => {
                            ty = Some(t);
                        },
                        None => {
                            proof {
                                lemma_envelope_failure_stays(text@, (k + 1) as nat, total);
                            }
                            return None;
                        },
                    }
                } else if str_eq(n.as_str(), "data") {
                    if data.is_some() {
                        proof {
                            lemma_envelope_failure_stays(text@, (k + 1) as nat, total);
                        }
                        return None;
                    }
                    match parse_json_text(concat3("[", value, "]").as_str()) {
                        Some(JsonValue::Array(items)) => {
                            if items.len() != 1 {
                                proof {
                                    lemma_envelope_failure_stays(text@, (k + 1) as nat, total);
                                }
                                return None;
                            }
                            data = Some(copy_non_null(Some(&items[0])));
                        },
                        _ => {
                            proof {
                                lemma_envelope_failure_stays(text@, (k + 1) as nat, total);
                            }
                            return None;
                        },
                    }
                }
            },
        }
        k = k + 1;
    }
    match ty {
        Some(t) => Some((t, match data {
            Some(d) => d,
            None => None,
        })),
        None => None,
    }
}

/// The event for an incoming text, given what the text reads as JSON: a text that is no
/// message envelope, or an object that names `type` or `data` twice, is user input as it
/// stands. An object text that does not read as a JSON document is still a message where
/// only the members that the envelope skips fail to read.
pub open spec fn message_event(text: Seq<char>, parsed: Option<JsonView>) -> EventView {
    match parsed {
        Some(v) => if v is Object && duplicate_envelope_field(text) {
            EventView::UserInput(text)
        } else {
            match incoming_message(v) {
                Some((t, data)) => typed_message_event(t, data),
                None => EventView::UserInput(text),
            }
        },
        None => match skipped_members_envelope(text) {
            Some((t, data)) => typed_message_event(t, data),
            None => EventView::UserInput(text),
        },
    }
}

fn copy_non_null(v: Option<&JsonValue>) -> (r: Option<JsonValue>)
    ensures
        opt_json_view(r) == non_null(match v {
            Some(x) => Some(x@),
            None => None,
        }),
{
    match v {
        Some(x) => if x.is_null() {
            None
        } else {
            Some(x.deep_clone())
        },
        None => None,
    }
}

/// Reads the envelope of a message.
pub fn incoming_parts(v: &JsonValue) -> (r: Option<(String, Option<JsonValue>)>)
    ensures
        match r {
            Some((t, d)) => incoming_message(v@) == Some((t@, opt_json_view(d))),
            None => incoming_message(v@) is None,
        },
{
    match v {
        JsonValue::Object(_) => match v.get("type") {
            Some(tv) => match tv.as_str() {
                Some(t) => {
                    let data = copy_non_null(v.get("data"));
                    Some((String::from_str(t), data))
                },
                None => None,
            },
            None => None,
        },
        JsonValue::Array(items) => {
            if items.len() == 2 {
                match items[0].as_str() {
                    Some(t) => {
                        let data = copy_non_null(Some(&items[1]));
                        Some((String::from_str(t), data))
                    },
                    None => None,
                }
            } else {
                None
            }
        },
        _ => None,
    }
}

/// Reads the control command named by a payload.
pub fn parse_control_command(data: &JsonValue) -> (r: ControlCommand)
    ensures
        r@ == control_command_of(data@),
{
    match data.get("command") {
        Some(c) => match c.as_str() {
            Some(cmd) => {
                if str_eq(cmd, "stop") {
                    ControlCommand::Stop
                } else if str_eq(cmd, "pause") {
                    ControlCommand::Pause
                } else if str_eq(cmd, "resume") {
                    ControlCommand::Resume
                } else if str_eq(cmd, "update_config") {
                    let config = match data.get("config") {
                        Some(x) => x.deep_clone(),
                        None => JsonValue::Null,
                    };
                    ControlCommand::UpdateConfig(config)
                } else {
                    ControlCommand::Custom(String::from_str(cmd), data.deep_clone())
                }
            },
            None => ControlCommand::Custom(String::from_str("unknown"), data.deep_clone()),
        },
        None => ControlCommand::Custom(String::from_str("unknown"), data.deep_clone()),
    }
}

fn timeout_value(v: Option<&JsonValue>) -> (r: Option<Option<u64>>)
    ensures
        r == timeout_member(match v {
            Some(x) => Some(x@),
            None => None,
        }),
{
    match v {
        None => Some(None),
        Some(x) => if x.is_null() {
            Some(None)
        } else {
            match x.as_u64() {
                Some(u) => Some(Some(u)),
                None => None,
            }
        },
    }
}

impl PermissionRequest {
    /// Reads a permission request from a payload.
    pub fn from_json(v: &JsonValue) -> (r: Option<PermissionRequest>)
        ensures
            match r {
                Some(p) => permission_request_of(v@) == Some(p@),
                None => permission_request_of(v@) is None,
            },
    {
        match v {
            JsonValue::Object(_) => {
                let rid = v.get("request_id");
                let tool = v.get("tool_name");
                let input = v.get("tool_input");
                let timeout = timeout_value(v.get("timeout_ms"));
                match (rid, tool, input, timeout) {
                    (Some(rid), Some(tool), Some(input), Some(timeout)) => {
                        match (rid.as_str(), tool.as_str()) {
                            (Some(r), Some(t)) => Some(
                                PermissionRequest {
                                    request_id: String::from_str(r),
                                    tool_name: String::from_str(t),
                                    tool_input: input.deep_clone(),
                                    timeout_ms: timeout,
                                },
                            ),
                            _ => None,
                        }
                    },
                    _ => None,
                }
            },
            JsonValue::Array(items) => {
                if items.len() == 4 {
                    let timeout = timeout_value(Some(&items[3]));
                    match (items[0].as_str(), items[1].as_str(), timeout) {
                        (Some(r), Some(t), Some(timeout)) => Some(
                            PermissionRequest {
                                request_id: String::from_str(r),
                                tool_name: String::from_str(t),
                                tool_input: items[2].deep_clone(),
                                timeout_ms: timeout,
                            },
                        ),
                        _ => None,
                    }
                } else {
                    None
                }
            },
            _ => None,
        }
    }
}

fn raw_event(t: &str, data: Option<JsonValue>) -> (r: IngressEvent)
    ensures
        r@ == EventView::Raw(raw_message(t@, opt_json_view(data))),
{
    let d = match data {
        Some(d) => d,
        None => JsonValue::Null,
    };
    let mut members: Vec<(String, JsonValue)> = Vec::new();
    members.push((String::from_str("type"), JsonValue::String(String::from_str(t))));
    members.push((String::from_str("data"), d));
    let v = JsonValue::Object(members);
    assert(members@[0].1@ == JsonView::Str(t@));
    assert(v@->Object_0[0] == ("type"@, JsonView::Str(t@)));
    assert(v@->Object_0[1] == ("data"@, d@));
    assert(v@->Object_0 =~= raw_message(t@, opt_json_view(data))->Object_0);
    IngressEvent::Raw(v)
}

/// The event for a message of type `t` with payload `data`.
pub fn typed_event(t: &str, data: Option<JsonValue>) -> (r: IngressEvent)
    ensures
        r@ == typed_message_event(t@, opt_json_view(data)),
{
    if str_eq(t, "user_input") {
        let found: Option<String> = match &data {
            Some(d) => match d.as_str() {
                Some(s) => Some(String::from_str(s)),
                None => match d.get("text") {
                    Some(x) => match x.as_str() {
                        Some(s) => Some(String::from_str(s)),
                        None => None,
                    },
                    None => None,
                },
            },
            None => None,
        };
        match found {
            Some(s) => IngressEvent::UserInput(s),
            None => raw_event(t, data),
        }
    } else if str_eq(t, "control_command") {
        match data {
            Some(d) => IngressEvent::ControlCommand(parse_control_command(&d)),
            None => raw_event(t, None),
        }
    } else if str_eq(t, "permission_request") {
        let req = match &data {
            Some(d) => PermissionRequest::from_json(d),
            None => None,
        };
        match req {
            Some(p) => IngressEvent::PermissionRequest(p),
            None => raw_event(t, data),
        }
    } else {
        raw_event(t, data)
    }
}

/// The event for an incoming text, given what it reads as JSON.
pub fn event_from_parsed(text: &str, parsed: Option<JsonValue>) -> (r: IngressEvent)
    ensures
        r@ == message_event(text@, opt_json_view(parsed)),
{
    let duplicated = match &parsed {
        Some(JsonValue::Object(_)) => has_duplicate_envelope_field(text),
        _ => false,
    };
    if duplicated {
        return IngressEvent::UserInput(String::from_str(text));
    }
    let parts = match &parsed {
        Some(v) => incoming_parts(v),
        None => skipped_members_parts(text),
    };
    match parts {
        Some((t, data)) => typed_event(t.as_str(), data),
        None => IngressEvent::UserInput(String::from_str(text)),
    }
}

} // verus!

verus! {

/// The `Duration` of a whole number of seconds, as `Duration::from_secs` gives it.
pub uninterp spec fn duration_of_secs(secs: u64) -> Duration;

/// Calls `Duration::from_secs`, which never fails; its result is named by `duration_of_secs`.
#[verifier::external_body]
fn duration_from_secs(secs: u64) -> (d: Duration)
    ensures
        d == duration_of_secs(secs),
{
    Duration::from_secs(secs)
}

/// `Duration`'s `Clone`, which copies it (the type is `Copy`).
pub assume_specification[ <Duration as Clone>::clone ](d: &Duration) -> (r: Duration)
    ensures
        r == *d,
;

/// Session ingress configuration
#[derive(Debug, Clone)]
pub struct IngressConfig {
    pub ingress_url: String,
    pub session_token: String,
    pub reconnect_attempts: u32,
    pub reconnect_delay: Duration,
    pub ping_interval: Duration,
}

impl Default for IngressConfig {
    fn default() -> (r: IngressConfig)
        ensures
            r.ingress_url@ == Seq::<char>::empty(),
            r.session_token@ == Seq::<char>::empty(),
            r.reconnect_attempts == 5,
            r.reconnect_delay == duration_of_secs(2),
            r.ping_interval == duration_of_secs(30),
    {
        IngressConfig {
            ingress_url: String::new(),
            session_token: String::new(),
            reconnect_attempts: 5,
            reconnect_delay: duration_from_secs(2),
            ping_interval: duration_from_secs(30),
        }
    }
}

#[verifier::external_type_specification]
#[verifier::external_body]
pub struct ExSerdeJsonError(serde_json::Error);

/// The text under which `serde_json::Error`'s `Display` shows an error: its message and,
/// where it has one, its line and column; a function of the error alone.
pub uninterp spec fn serde_error_display(e: serde_json::Error) -> Seq<char>;

/// Calls `to_string` on a `serde_json::Error`; the text is the one named by
/// `serde_error_display`.
#[verifier::external_body]
fn serde_error_text(e: &serde_json::Error) -> (r: String)
    ensures
        r@ == serde_error_display(*e),
{
    e.to_string()
}

/// Session ingress error
#[derive(Debug)]
pub enum IngressError {
    WebSocket(String),
    Http(String),
    Protocol(String),
    Bridge(BridgeFatalError),
    ConnectionClosed,
    Serialization(serde_json::Error),
    Send(String),
}

impl IngressError {
    /// The text under which the error is shown; for a serialization error, the prefix
    /// "Serialization error: " followed by the text that `serde_json` gives.
    pub fn to_string(&self) -> (r: String)
        ensures
            match self {
                IngressError::WebSocket(m) => r@ == "WebSocket error: "@ + m@,
                IngressError::Http(m) => r@ == "HTTP error: "@ + m@,
                IngressError::Protocol(m) => r@ == "Protocol error: "@ + m@,
                IngressError::Bridge(e) => r@ == "Bridge fatal error: "@ + e@.text(),
                IngressError::ConnectionClosed => r@ == "Connection closed"@,
                IngressError::Serialization(e) => r@ == "Serialization error: "@ + serde_error_display(*e),
                IngressError::Send(m) => r@ == "Send error: "@ + m@,
            },
    {
        match self {
            IngressError::WebSocket(m) => String::from_str("WebSocket error: ").concat(m.as_str()),
            IngressError::Http(m) => String::from_str("HTTP error: ").concat(m.as_str()),
            IngressError::Protocol(m) => String::from_str("Protocol error: ").concat(m.as_str()),
            IngressError::Bridge(e) => {
                let t = e.to_string();
                String::from_str("Bridge fatal error: ").concat(t.as_str())
            },
            IngressError::ConnectionClosed => String::from_str("Connection closed"),
            IngressError::Serialization(e) => {
                let t = serde_error_text(e);
                String::from_str("Serialization error: ").concat(t.as_str())
            },
            IngressError::Send(m) => String::from_str("Send error: ").concat(m.as_str()),
        }
    }
}

impl From<BridgeFatalError> for IngressError {
    fn from(e: BridgeFatalError) -> (r: IngressError) {
        IngressError::Bridge(e)
    }
}

impl vstd::std_specs::convert::FromSpecImpl<BridgeFatalError> for IngressError {
    open spec fn obeys_from_spec() -> bool {
        true
    }

    open spec fn from_spec(e: BridgeFatalError) -> IngressError {
        IngressError::Bridge(e)
    }
}

impl From<serde_json::Error> for IngressError {
    fn from(e: serde_json::Error) -> (r: IngressError) {
        IngressError::Serialization(e)
    }
}

impl vstd::std_specs::convert::FromSpecImpl<serde_json::Error> for IngressError {
    open spec fn obeys_from_spec() -> bool {
        true
    }

    open spec fn from_spec(e: serde_json::Error) -> IngressError {
        IngressError::Serialization(e)
    }
}

#[verifier::external_type_specification]
#[verifier::external_body]
#[verifier::reject_recursive_types(T)]
pub struct ExHttpRequest<T>(http::Request<T>);

/// The text of the error with which `http::Request::builder()` refuses a request to `uri`
/// with one header, or `None` where it builds it; a function of the three texts.
pub uninterp spec fn request_build_failure(uri: Seq<char>, header_name: Seq<char>, header_value: Seq<char>) -> Option<Seq<char>>;

/// Builds a request with `http::Request::builder()`, its `uri`, one `header` and an empty
/// `body`, keeping the text of the error; the outcome is the one named by
/// `request_build_failure`.
#[verifier::external_body]
fn build_request(uri: &str, header_name: &str, header_value: &str) -> (r: Result<http::Request<()>, String>)
    ensures
        match r {
            Ok(_) => request_build_failure(uri@, header_name@, header_value@) is None,
            Err(m) => request_build_failure(uri@, header_name@, header_value@) == Some(m@),
        },
{
    http::Request::builder().uri(uri).header(header_name, header_value).body(()).map_err(|e| e.to_string())
}

/// The text under which `http::StatusCode` shows a status: the code and its reason phrase.
pub uninterp spec fn http_status_text(code: u16) -> Seq<char>;

/// Shows a response status with `http::StatusCode`'s `Display`. `StatusCode::from_u16`
/// accepts every code from 100 to 999, so the code is required to lie there.
#[verifier::external_body]
fn status_text(code: u16) -> (r: String)
    requires
        100 <= code <= 999,
    ensures
        r@ == http_status_text(code),
{
    http::StatusCode::from_u16(code).unwrap().to_string()
}

/// Decodes bytes as UTF-8 with `String::from_utf8`, which accepts exactly the valid
/// encodings and gives the text they encode.
#[verifier::external_body]
fn utf8_decode(bytes: Vec<u8>) -> (r: Option<String>)
    ensures
        r is Some <==> valid_utf8(bytes@),
        r matches Some(s) ==> s@ == decode_utf8(bytes@),
{
    String::from_utf8(bytes).ok()
}

/// A frame read from the ingress WebSocket.
#[derive(Debug)]
pub enum WsFrame {
    Text(String),
    Binary(Vec<u8>),
    Ping,
    Pong,
    Close,
    /// A raw frame
    Frame,
    /// The stream failed
    Failed,
}

/// What the read loop does with a frame.
#[derive(Debug)]
pub enum ReadStep {
    /// Hand the event on and read the next frame
    Emit(IngressEvent),
    /// Hand the event on and stop reading
    EmitAndStop(IngressEvent),
    /// Stop reading
    Stop,
    /// Read the next frame
    Skip,
}

pub enum ReadStepView {
    Emit(EventView),
    EmitAndStop(EventView),
    Stop,
    Skip,
}

impl View for ReadStep {
    type V = ReadStepView;

    open spec fn view(&self) -> ReadStepView {
        match self {
            ReadStep::Emit(e) => ReadStepView::Emit(e@),
            ReadStep::EmitAndStop(e) => ReadStepView::EmitAndStop(e@),
            ReadStep::Stop => ReadStepView::Stop,
            ReadStep::Skip => ReadStepView::Skip,
        }
    }
}

/// The event for an incoming text.
pub open spec fn text_event(text: Seq<char>) -> EventView {
    message_event(text, json_text_parse(text))
}

/// What the read loop does with a frame: text, and binary data that decodes as UTF-8, are
/// parsed into an event; a ping is passed on; a close is passed on as a disconnection and
/// ends the loop, as a failure does silently; anything else is skipped.
pub open spec fn read_step_of(frame: WsFrame) -> ReadStepView {
    match frame {
        WsFrame::Text(t) => ReadStepView::Emit(text_event(t@)),
        WsFrame::Binary(b) => if valid_utf8(b@) {
            ReadStepView::Emit(text_event(decode_utf8(b@)))
        } else {
            ReadStepView::Skip
        },
        WsFrame::Ping => ReadStepView::Emit(EventView::Ping),
        WsFrame::Close => ReadStepView::EmitAndStop(EventView::Disconnected),
        WsFrame::Failed => ReadStepView::Stop,
        _ => ReadStepView::Skip,
    }
}

/// Session ingress client: its configuration and whether it is connected.
pub struct SessionIngress {
    config: IngressConfig,
    is_connected: bool,
}

impl SessionIngress {
    pub closed spec fn spec_config(&self) -> &IngressConfig {
        &self.config
    }

    pub closed spec fn spec_connected(&self) -> bool {
        self.is_connected
    }

    /// Create a new session ingress, not connected.
    pub fn new(config: IngressConfig) -> (r: SessionIngress)
        ensures
            !r.spec_connected(),
            r.spec_config() == config,
    {
        SessionIngress { config, is_connected: false }
    }

    pub fn config(&self) -> (r: &IngressConfig)
        ensures
            r == self.spec_config(),
    {
        &self.config
    }

    /// Check if connected
    pub fn is_connected(&self) -> (r: bool)
        ensures
            r == self.spec_connected(),
    {
        self.is_connected
    }

    /// The check of the ingress URL before connecting.
    pub fn check_url(&self) -> (r: Result<(), IngressError>)
        ensures
            r is Ok <==> url_parse_failure(self.spec_config().ingress_url@) is None,
            r matches Err(IngressError::WebSocket(m)) ==> m@ == "Invalid URL: "@ + url_parse_failure(self.spec_config().ingress_url@)->Some_0,
            r matches Err(e) ==> e is WebSocket,
    {
        match parse_url(self.config.ingress_url.as_str()) {
            Ok(_) => Ok(()),
            Err((_, m)) => Err(IngressError::WebSocket(String::from_str("Invalid URL: ").concat(m.as_str()))),
        }
    }

    /// The request of the WebSocket handshake: the ingress URL must parse, and the request
    /// carries the bearer token in its `Authorization` header.
    pub fn handshake_request(&self) -> (r: Result<http::Request<()>, IngressError>)
        ensures
            ({
                let url = self.spec_config().ingress_url@;
                let auth = "Bearer "@ + self.spec_config().session_token@;
                match url_parse_failure(url) {
                    Some(m) => r matches Err(IngressError::WebSocket(t)) && t@ == "Invalid URL: "@ + m,
                    None => match request_build_failure(url, "Authorization"@, auth) {
                        Some(m) => r matches Err(IngressError::WebSocket(t)) && t@ == "Request build error: "@ + m,
                        None => r is Ok,
                    },
                }
            }),
    {
        if let Err(e) = self.check_url() {
            return Err(e);
        }
        let auth = self.authorization();
        match build_request(self.config.ingress_url.as_str(), "Authorization", auth.as_str()) {
            Ok(request) => Ok(request),
            Err(m) => Err(IngressError::WebSocket(String::from_str("Request build error: ").concat(m.as_str()))),
        }
    }

    /// The authorization header value of the WebSocket handshake.
    pub fn authorization(&self) -> (r: String)
        ensures
            r@ == "Bearer "@ + self.spec_config().session_token@,
    {
        String::from_str("Bearer ").concat(self.config.session_token.as_str())
    }

    /// Takes the handshake's response status: 101 connects the ingress; any other
    /// status fails and leaves it as it was.
    pub fn handshake_result(&mut self, status: u16) -> (r: Result<(), IngressError>)
        requires
            100 <= status <= 999,
        ensures
            r is Ok <==> status == 101,
            r is Ok ==> final(self).spec_connected(),
            r is Err ==> final(self).spec_connected() == old(self).spec_connected(),
            final(self).spec_config() == old(self).spec_config(),
            r matches Err(IngressError::WebSocket(m)) ==> m@ == "Unexpected status code: "@ + http_status_text(status),
            r matches Err(e) ==> e is WebSocket,
    {
        if status != 101 {
            let t = status_text(status);
            return Err(IngressError::WebSocket(String::from_str("Unexpected status code: ").concat(t.as_str())));
        }
        self.is_connected = true;
        Ok(())
    }

    /// Disconnect from the ingress endpoint.
    pub fn mark_disconnected(&mut self)
        ensures
            !final(self).spec_connected(),
            final(self).spec_config() == old(self).spec_config(),
    {
        self.is_connected = false;
    }

    /// Parse an incoming message.
    pub fn parse_message(text: &str) -> (r: IngressEvent)
        ensures
            r@ == text_event(text@),
    {
        let parsed = parse_json_text(text);
        event_from_parsed(text, parsed)
    }

    /// Parse a control command.
    pub fn parse_control_command(data: &JsonValue) -> (r: ControlCommand)
        ensures
            r@ == control_command_of(data@),
    {
        parse_control_command(data)
    }

    /// What the read loop does with a frame.
    pub fn read_step(frame: WsFrame) -> (r: ReadStep)
        ensures
            r@ == read_step_of(frame),
    {
        match frame {
            WsFrame::Text(t) => ReadStep::Emit(SessionIngress::parse_message(t.as_str())),
            WsFrame::Binary(b) => match utf8_decode(b) {
                Some(t) => ReadStep::Emit(SessionIngress::parse_message(t.as_str())),
                None => ReadStep::Skip,
            },
            WsFrame::Ping => ReadStep::Emit(IngressEvent::Ping),
            WsFrame::Close => ReadStep::EmitAndStop(IngressEvent::Disconnected),
            WsFrame::Failed => ReadStep::Stop,
            _ => ReadStep::Skip,
        }
    }
}

/// Ingress message sender for sending events back to the control server: where and with which
/// token events are sent, and what they say.
pub struct IngressSender {
    session_token: String,
    api_base_url: String,
}

/// The name under which an activity type is sent.
pub open spec fn activity_type_name(t: SessionActivityType) -> Seq<char> {
    match t {
        SessionActivityType::ToolStart => "tool_start"@,
        SessionActivityType::Text => "text"@,
        SessionActivityType::Result => "result"@,
        SessionActivityType::Error => "error"@,
    }
}

/// The name under which a final session status is sent.
pub open spec fn done_status_name(s: SessionDoneStatus) -> Seq<char> {
    match s {
        SessionDoneStatus::Completed => "completed"@,
        SessionDoneStatus::Failed => "failed"@,
        SessionDoneStatus::Interrupted => "interrupted"@,
    }
}

/// The event that reports a session activity.
pub open spec fn activity_event(a: &SessionActivity) -> JsonView {
    JsonView::Object(
        seq![
            ("type"@, JsonView::Str("session_activity"@)),
            (
                "activity"@,
                JsonView::Object(
                    seq![
                        ("type"@, JsonView::Str(activity_type_name(a.type_))),
                        ("summary"@, JsonView::Str(a.summary@)),
                        ("timestamp"@, JsonView::Number(NumberView::PosInt(a.timestamp))),
                    ],
                ),
            ),
        ],
    )
}

/// The event that reports the end of a session.
pub open spec fn session_done_event(s: SessionDoneStatus) -> JsonView {
    JsonView::Object(
        seq![("type"@, JsonView::Str("session_done"@)), ("status"@, JsonView::Str(done_status_name(s)))],
    )
}

fn activity_type_str(t: SessionActivityType) -> (r: &'static str)
    ensures
        r@ == activity_type_name(t),
{
    match t {
        SessionActivityType::ToolStart => "tool_start",
        SessionActivityType::Text => "text",
        SessionActivityType::Result => "result",
        SessionActivityType::Error => "error",
    }
}

fn done_status_str(s: SessionDoneStatus) -> (r: &'static str)
    ensures
        r@ == done_status_name(s),
{
    match s {
        SessionDoneStatus::Completed => "completed",
        SessionDoneStatus::Failed => "failed",
        SessionDoneStatus::Interrupted => "interrupted",
    }
}

impl IngressSender {
    pub closed spec fn spec_session_token(&self) -> Seq<char> {
        self.session_token@
    }

    pub closed spec fn spec_api_base_url(&self) -> Seq<char> {
        self.api_base_url@
    }

    /// Create a new ingress sender
    pub fn new(session_token: String, api_base_url: String) -> (r: IngressSender)
        ensures
            r.spec_session_token() == session_token@,
            r.spec_api_base_url() == api_base_url@,
    {
        IngressSender { session_token, api_base_url }
    }

    /// Where events are sent: the base URL without trailing slashes, then `/v1/sessions/events`.
    pub fn events_url(&self) -> (r: String)
        ensures
            r@ == trim_end_char(self.spec_api_base_url(), '/') + "/v1/sessions/events"@,
    {
        let base = trim_end_matches_char(self.api_base_url.as_str(), '/');
        base.concat("/v1/sessions/events")
    }

    /// The authorization header value of every event.
    pub fn authorization(&self) -> (r: String)
        ensures
            r@ == "Bearer "@ + self.spec_session_token(),
    {
        String::from_str("Bearer ").concat(self.session_token.as_str())
    }

    /// The body that sends a permission response.
    pub fn permission_response_body(response: &PermissionResponseEvent) -> (r: JsonValue)
        ensures
            r@ == response.json_view(),
    {
        response.to_json()
    }

    /// The body that reports a session activity.
    pub fn activity_body(activity: &SessionActivity) -> (r: JsonValue)
        ensures
            r@ == activity_event(activity),
    {
        let mut inner: Vec<(String, JsonValue)> = Vec::new();
        inner.push((String::from_str("type"), JsonValue::string(activity_type_str(activity.type_))));
        inner.push((String::from_str("summary"), JsonValue::String(activity.summary.clone())));
        inner.push((String::from_str("timestamp"), JsonValue::Number(JsonNumber::PosInt(activity.timestamp))));
        let ghost iv = inner@;
        let inner_json = JsonValue::object(inner);
        assert(members_view(iv) =~= activity_event(activity)->Object_0[1].1->Object_0);
        let mut outer: Vec<(String, JsonValue)> = Vec::new();
        outer.push((String::from_str("type"), JsonValue::string("session_activity")));
        outer.push((String::from_str("activity"), inner_json));
        let ghost ov = outer@;
        let r = JsonValue::object(outer);
        assert(members_view(ov) =~= activity_event(activity)->Object_0);
        r
    }

    /// The body that reports the end of a session.
    pub fn session_done_body(status: SessionDoneStatus) -> (r: JsonValue)
        ensures
            r@ == session_done_event(status),
    {
        let mut m: Vec<(String, JsonValue)> = Vec::new();
        m.push((String::from_str("type"), JsonValue::string("session_done")));
        m.push((String::from_str("status"), JsonValue::string(done_status_str(status))));
        let ghost mv = m@;
        let r = JsonValue::object(m);
        assert(members_view(mv) =~= session_done_event(status)->Object_0);
        r
    }
}

} // verus!

verus! {

/// A text that is no JSON, not even when its members are only skipped, reaches the
/// session as user input, unchanged.
pub proof fn lemma_plain_text_is_user_input(text: Seq<char>)
    requires
        json_text_parse(text) is None,
        !json_text_ignorable(text),
    ensures
        text_event(text) == EventView::UserInput(text),
{
}

/// Where no name occurs twice among the members of an object text, the event depends on
/// the parsed document alone: the order of the members, and which of them come first,
/// do not matter.
pub proof fn lemma_distinct_names_read_the_document(text: Seq<char>, v: JsonView)
    requires
        json_text_parse(text) == Some(v),
        forall|a: int, b: int, w: Seq<char>|
            0 <= a < b < scan(text).keys.len() ==> !(#[trigger] member_named(text, a, w) && #[trigger] member_named(
                text,
                b,
                w,
            )),
    ensures
        text_event(text) == match incoming_message(v) {
            Some((t, data)) => typed_message_event(t, data),
            None => EventView::UserInput(text),
        },
{
    if duplicate_envelope_field(text) {
        let (a, b) = choose|a: int, b: int|
            0 <= a < b < scan(text).keys.len() && ((member_named(text, a, "type"@) && member_named(text, b, "type"@))
                || (member_named(text, a, "data"@) && member_named(text, b, "data"@)));
        if member_named(text, a, "type"@) && member_named(text, b, "type"@) {
            assert(!(member_named(text, a, "type"@) && member_named(text, b, "type"@)));
        } else {
            assert(!(member_named(text, a, "data"@) && member_named(text, b, "data"@)));
        }
    }
}

/// JSON without a message envelope reaches the session as user input, unchanged.
pub proof fn lemma_envelope_free_json_is_user_input(text: Seq<char>, v: JsonView)
    requires
        incoming_message(v) is None,
    ensures
        message_event(text, Some(v)) == EventView::UserInput(text),
{
}

/// A message of a type other than user input, control command and permission request is
/// passed on raw, with its type and data.
pub proof fn lemma_unknown_type_is_raw(t: Seq<char>, data: Option<JsonView>)
    requires
        t != "user_input"@,
        t != "control_command"@,
        t != "permission_request"@,
    ensures
        typed_message_event(t, data) == EventView::Raw(raw_message(t, data)),
        raw_message(t, data).get("type"@) == Some(JsonView::Str(t)),
{
    assert(raw_message(t, data)->Object_0[0].0 == "type"@);
}

/// A message that carries a payload under a known type never loses it: it becomes the
/// typed event, or the raw message that holds that payload.
pub proof fn lemma_known_type_with_data(t: Seq<char>, d: JsonView)
    ensures
        t == "control_command"@ ==> typed_message_event(t, Some(d)) == EventView::ControlCommand(control_command_of(d)),
        typed_message_event(t, Some(d)) is Raw ==> typed_message_event(t, Some(d)) == EventView::Raw(raw_message(t, Some(d))),
{
    reveal_strlit("user_input");
    reveal_strlit("control_command");
    assert("user_input"@ != "control_command"@) by {
        assert("user_input"@[0] != "control_command"@[0]);
    }
}

/// The read loop ends on a close frame, after passing on the disconnection, and on a
/// failure, silently; every other frame lets it go on.
pub proof fn lemma_read_loop_ends_only_on_close_or_failure(frame: WsFrame)
    ensures
        (read_step_of(frame) is EmitAndStop || read_step_of(frame) is Stop) <==> (frame is Close || frame is Failed),
        frame is Close ==> read_step_of(frame) == ReadStepView::EmitAndStop(EventView::Disconnected),
{
}

} // verus!
