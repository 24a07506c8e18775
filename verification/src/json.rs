use vstd::prelude::*;

use crate::text::str_eq;
use vstd::string::*;

verus! {

/// A JSON number as the wire format distinguishes it: non-negative integers,
/// negative integers, and anything else kept by its decimal text.
#[derive(Debug)]
pub enum JsonNumber {
    PosInt(u64),
    NegInt(i64),
    Float(String),
}

/// A JSON document held as plain values.
#[derive(Debug)]
pub enum JsonValue {
    Null,
    Bool(bool),
    Number(JsonNumber),
    String(String),
    Array(Vec<JsonValue>),
    Object(Vec<(String, JsonValue)>),
}

pub enum NumberView {
    PosInt(u64),
    NegInt(i64),
    Float(Seq<char>),
}

/// The mathematical model of a JSON document.
pub enum JsonView {
    Null,
    Bool(bool),
    Number(NumberView),
    Str(Seq<char>),
    Array(Seq<JsonView>),
    Object(Seq<(Seq<char>, JsonView)>),
}

pub open spec fn number_view(n: JsonNumber) -> NumberView {
    match n {
        JsonNumber::PosInt(u) => NumberView::PosInt(u),
        JsonNumber::NegInt(i) => NumberView::NegInt(i),
        JsonNumber::Float(s) => NumberView::Float(s@),
    }
}

pub open spec fn json_view(v: JsonValue) -> JsonView
    decreases v,
{
    match v {
        JsonValue::Null => JsonView::Null,
        JsonValue::Bool(b) => JsonView::Bool(b),
        JsonValue::Number(n) => JsonView::Number(number_view(n)),
        JsonValue::String(s) => JsonView::Str(s@),
        JsonValue::Array(items) => JsonView::Array(
            Seq::new(
                items@.len(),
                |i: int|
                    if 0 <= i < items@.len() {
                        proof {
                            assert(decreases_to!(items => items@[i]));
                        }
                        json_view(items@[i])
                    } else {
                        JsonView::Null
                    },
            ),
        ),
        JsonValue::Object(pairs) => JsonView::Object(
            Seq::new(
                pairs@.len(),
                |i: int|
                    if 0 <= i < pairs@.len() {
                        proof {
                            assert(decreases_to!(pairs => pairs@[i]));
                        }
                        (pairs@[i].0@, json_view(pairs@[i].1))
                    } else {
                        (Seq::empty(), JsonView::Null)
                    },
            ),
        ),
    }
}

} // verus!

verus! {

impl View for JsonValue {
    type V = JsonView;

    open spec fn view(&self) -> JsonView {
        json_view(*self)
    }
}

/// The value stored under `key` in the members of an object: the first member
/// with that key (a parsed object never holds a key twice).
pub open spec fn lookup(members: Seq<(Seq<char>, JsonView)>, key: Seq<char>) -> Option<JsonView>
    decreases members.len(),
{
    if members.len() == 0 {
        None
    } else if members[0].0 == key {
        Some(members[0].1)
    } else {
        lookup(members.drop_first(), key)
    }
}

impl JsonView {
    /// `value.get(key)`: the member under `key` of an object; nothing for any other value.
    pub open spec fn get(self, key: Seq<char>) -> Option<JsonView> {
        match self {
            JsonView::Object(members) => lookup(members, key),
            _ => None,
        }
    }

    /// `value[key]`: the member under `key`, or null when there is none.
    pub open spec fn index(self, key: Seq<char>) -> JsonView {
        match self.get(key) {
            Some(v) => v,
            None => JsonView::Null,
        }
    }

    pub open spec fn as_str(self) -> Option<Seq<char>> {
        match self {
            JsonView::Str(s) => Some(s),
            _ => None,
        }
    }

    pub open spec fn as_bool(self) -> Option<bool> {
        match self {
            JsonView::Bool(b) => Some(b),
            _ => None,
        }
    }

    pub open spec fn as_u64(self) -> Option<u64> {
        match self {
            JsonView::Number(NumberView::PosInt(u)) => Some(u),
            _ => None,
        }
    }

    /// Null, or an object without members.
    pub open spec fn is_empty_payload(self) -> bool {
        match self {
            JsonView::Null => true,
            JsonView::Object(members) => members.len() == 0,
            _ => false,
        }
    }
}

pub open spec fn opt_json_view(v: Option<JsonValue>) -> Option<JsonView> {
    match v {
        Some(j) => Some(j@),
        None => None,
    }
}

/// An object whose members are the given keys and values, in order.
pub open spec fn object_of(members: Seq<(Seq<char>, JsonView)>) -> JsonView {
    JsonView::Object(members)
}

impl JsonNumber {
    pub fn deep_clone(&self) -> (r: JsonNumber)
        ensures
            number_view(r) == number_view(*self),
    {
        match self {
            JsonNumber::PosInt(u) => JsonNumber::PosInt(*u),
            JsonNumber::NegInt(i) => JsonNumber::NegInt(*i),
            JsonNumber::Float(s) => JsonNumber::Float(s.clone()),
        }
    }
}

impl JsonValue {
    /// A copy of the whole document.
    pub fn deep_clone(&self) -> (r: JsonValue)
        ensures
            r@ == self@,
        decreases self, 0nat,
    {
        match self {
            JsonValue::Null => JsonValue::Null,
            JsonValue::Bool(b) => JsonValue::Bool(*b),
            JsonValue::Number(n) => JsonValue::Number(n.deep_clone()),
            JsonValue::String(s) => JsonValue::String(s.clone()),
            JsonValue::Array(items) => {
                let out = clone_items(items);
                let r = JsonValue::Array(out);
                assert(r@->Array_0 =~= self@->Array_0);
                r
            },
            JsonValue::Object(members) => {
                let out = clone_members(members);
                let r = JsonValue::Object(out);
                assert(r@->Object_0 =~= self@->Object_0);
                r
            },
        }
    }
}

impl Clone for JsonNumber {
    fn clone(&self) -> (r: JsonNumber)
        ensures
            number_view(r) == number_view(*self),
    {
        self.deep_clone()
    }
}

impl Clone for JsonValue {
    fn clone(&self) -> (r: JsonValue)
        ensures
            r@ == self@,
    {
        self.deep_clone()
    }
}

fn clone_items(items: &Vec<JsonValue>) -> (out: Vec<JsonValue>)
    ensures
        out@.len() == items@.len(),
        forall|j: int| 0 <= j < items@.len() ==> out@[j]@ == items@[j]@,
    decreases items, 1nat,
{
    let mut out: Vec<JsonValue> = Vec::new();
    let mut i: usize = 0;
    while i < items.len()
        invariant
            i <= items@.len(),
            out@.len() == i,
            forall|j: int| 0 <= j < i ==> out@[j]@ == items@[j]@,
        decreases items@.len() - i,
    {
        proof {
            assert(decreases_to!(items => items@[i as int]));
        }
        let c = items[i].deep_clone();
        out.push(c);
        i = i + 1;
    }
    out
}

fn clone_members(members: &Vec<(String, JsonValue)>) -> (out: Vec<(String, JsonValue)>)
    ensures
        out@.len() == members@.len(),
        forall|j: int|
            0 <= j < members@.len() ==> out@[j].0@ == members@[j].0@ && out@[j].1@
                == members@[j].1@,
    decreases members, 1nat,
{
    let mut out: Vec<(String, JsonValue)> = Vec::new();
    let mut i: usize = 0;
    while i < members.len()
        invariant
            i <= members@.len(),
            out@.len() == i,
            forall|j: int|
                0 <= j < i ==> out@[j].0@ == members@[j].0@ && out@[j].1@ == members@[j].1@,
        decreases members@.len() - i,
    {
        proof {
            assert(decreases_to!(members => members@[i as int].1));
        }
        let k = members[i].0.clone();
        let v = members[i].1.deep_clone();
        out.push((k, v));
        i = i + 1;
    }
    out
}


impl JsonValue {
    /// The member under `key` of an object; `None` for a missing key or a value that is no object.
    pub fn get(&self, key: &str) -> (r: Option<&JsonValue>)
        ensures
            match r {
                Some(v) => self@.get(key@) == Some(v@),
                None => self@.get(key@) is None,
            },
    {
        match self {
            JsonValue::Object(members) => {
                let ghost vm = self@->Object_0;
                assert(vm.subrange(0, vm.len() as int) =~= vm);
                let mut i: usize = 0;
                while i < members.len()
                    invariant
                        i <= members@.len(),
                        self@ == JsonView::Object(vm),
                        vm.len() == members@.len(),
                        forall|j: int| 0 <= j < vm.len() ==> #[trigger] vm[j] == (members@[j].0@, members@[j].1@),
                        lookup(vm.subrange(i as int, vm.len() as int), key@) == lookup(vm, key@),
                    decreases members@.len() - i,
                {
                    assert(vm.subrange(i as int, vm.len() as int).drop_first() =~= vm.subrange(i + 1, vm.len() as int));
                    assert(vm.subrange(i as int, vm.len() as int)[0] == vm[i as int]);
                    if str_eq(members[i].0.as_str(), key) {
                        assert(vm[i as int].0 == key@);
                        assert(lookup(vm.subrange(i as int, vm.len() as int), key@) == Some(vm[i as int].1));
                        return Some(&members[i].1);
                    }
                    i = i + 1;
                }
                None
            },
            _ => None,
        }
    }

    pub fn as_str(&self) -> (r: Option<&str>)
        ensures
            match r {
                Some(s) => self@.as_str() == Some(s@),
                None => self@.as_str() is None,
            },
    {
        match self {
            JsonValue::String(s) => Some(s.as_str()),
            _ => None,
        }
    }

    pub fn as_bool(&self) -> (r: Option<bool>)
        ensures
            r == self@.as_bool(),
    {
        match self {
            JsonValue::Bool(b) => Some(*b),
            _ => None,
        }
    }

    pub fn as_u64(&self) -> (r: Option<u64>)
        ensures
            r == self@.as_u64(),
    {
        match self {
            JsonValue::Number(JsonNumber::PosInt(u)) => Some(*u),
            _ => None,
        }
    }

    pub fn is_null(&self) -> (r: bool)
        ensures
            r == (self@ is Null),
    {
        match self {
            JsonValue::Null => true,
            _ => false,
        }
    }

    /// Null, or an object without members.
    pub fn is_empty_payload(&self) -> (r: bool)
        ensures
            r == self@.is_empty_payload(),
    {
        match self {
            JsonValue::Null => true,
            JsonValue::Object(members) => members.len() == 0,
            _ => false,
        }
    }

    /// A string value.
    pub fn string(s: &str) -> (r: JsonValue)
        ensures
            r@ == JsonView::Str(s@),
    {
        JsonValue::String(String::from_str(s))
    }

    /// An object with no members.
    pub fn empty_object() -> (r: JsonValue)
        ensures
            r@ == JsonView::Object(Seq::empty()),
    {
        let r = JsonValue::Object(Vec::new());
        assert(r@->Object_0 =~= Seq::<(Seq<char>, JsonView)>::empty());
        r
    }
}

} // verus!

verus! {

/// The model of the members of an object.
pub open spec fn members_view(m: Seq<(String, JsonValue)>) -> Seq<(Seq<char>, JsonView)> {
    Seq::new(m.len(), |i: int| (m[i].0@, m[i].1@))
}

/// The model of an optional string as JSON: the string, or null.
pub open spec fn opt_text_json(s: Option<Seq<char>>) -> JsonView {
    match s {
        Some(t) => JsonView::Str(t),
        None => JsonView::Null,
    }
}

impl JsonValue {
    /// An object with the given members, in order.
    pub fn object(members: Vec<(String, JsonValue)>) -> (r: JsonValue)
        ensures
            r@ == JsonView::Object(members_view(members@)),
    {
        let ghost m = members@;
        let r = JsonValue::Object(members);
        assert(r@->Object_0 =~= members_view(m));
        r
    }

    /// An optional string as JSON: the string, or null.
    pub fn opt_string(s: &Option<String>) -> (r: JsonValue)
        ensures
            r@ == opt_text_json(match s {
                Some(t) => Some(t@),
                None => None,
            }),
    {
        match s {
            Some(t) => JsonValue::String(t.clone()),
            None => JsonValue::Null,
        }
    }
}

} // verus!

verus! {

#[verifier::external_type_specification]
#[verifier::external_body]
pub struct ExSerdeJsonValue(serde_json::Value);

#[verifier::external_type_specification]
#[verifier::external_body]
pub struct ExSerdeJsonNumber(serde_json::Number);

/// The document that `serde_json` reads from a text, taken by its model; `None` where
/// `serde_json` rejects the text.
pub uninterp spec fn json_text_parse(text: Seq<char>) -> Option<JsonView>;

/// Reads a text as JSON with `serde_json::from_str::<serde_json::Value>`. The contract
/// says only that the outcome is the one `serde_json` gives for this text; what that
/// outcome is, is left to `serde_json`.
#[verifier::external_body]
pub(crate) fn parse_json_text(text: &str) -> (r: Option<JsonValue>)
    ensures
        opt_json_view(r) == json_text_parse(text@),
{
    match serde_json::from_str::<serde_json::Value>(text) {
        Ok(v) => Some(from_serde_value(v)),
        Err(_) => None,
    }
}

/// Whether `serde_json` reads a text as one JSON value when it only skips it (as it skips
/// the members of an object that a reader does not know): `from_str::<IgnoredAny>` then
/// checks the syntax, but neither the range of numbers, nor that a `\u` escape is a whole
/// character, nor how deep the value nests.
pub uninterp spec fn json_text_ignorable(text: Seq<char>) -> bool;

/// Skips a text as JSON with `serde_json::from_str::<serde::de::IgnoredAny>`; the outcome is
/// the one named by `json_text_ignorable`.
#[verifier::external_body]
pub(crate) fn ignorable_json_text(text: &str) -> (r: bool)
    ensures
        r == json_text_ignorable(text@),
{
    serde_json::from_str::<serde::de::IgnoredAny>(text).is_ok()
}

/// Moves a `serde_json::Number` into the library's own representation: its non-negative
/// integers, its negative integers, and the text of any other number. (`Number` keeps
/// these three kinds in a private enum; `as_u64` and `as_i64` tell them apart.)
#[verifier::external_body]
fn number_from_serde(n: serde_json::Number) -> JsonNumber {
    match (n.as_u64(), n.as_i64()) {
        (Some(u), _) => JsonNumber::PosInt(u),
        (None, Some(i)) => JsonNumber::NegInt(i),
        (None, None) => JsonNumber::Float(n.to_string()),
    }
}

/// Moves a `serde_json::Value` into the library's own representation, variant for variant.
#[verifier::external_body]
fn from_serde_value(v: serde_json::Value) -> JsonValue {
    match v {
        serde_json::Value::Null => JsonValue::Null,
        serde_json::Value::Bool(b) => JsonValue::Bool(b),
        serde_json::Value::Number(n) => JsonValue::Number(number_from_serde(n)),
        serde_json::Value::String(s) => JsonValue::String(s),
        serde_json::Value::Array(a) => JsonValue::Array(a.into_iter().map(from_serde_value).collect()),
        serde_json::Value::Object(o) => JsonValue::Object(
            o.into_iter().map(|(k, v)| (k, from_serde_value(v))).collect(),
        ),
    }
}

} // verus!
