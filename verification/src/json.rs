//! A JSON document model that the rest of the library navigates.
use vstd::prelude::*;
use vstd::string::*;

verus! {

/// A JSON value. Objects keep their members in the order the parser
/// produced them; numbers keep their literal text.
#[derive(Debug, PartialEq)]
pub enum JsonValue {
    Null,
    Bool(bool),
    Number(String),
    Str(String),
    Array(Vec<JsonValue>),
    Object(Vec<(String, JsonValue)>),
}

/// The value of the first member at or after position `i` whose key is `key`.
pub open spec fn lookup_from(members: Seq<(String, JsonValue)>, key: Seq<char>, i: int) -> Option<JsonValue>
    decreases members.len() - i,
{
    if i < 0 || i >= members.len() {
        None
    } else if members[i].0@ == key {
        Some(members[i].1)
    } else {
        lookup_from(members, key, i + 1)
    }
}

/// `v[key]` for an object `v`; `None` for every other kind of value.
pub open spec fn json_get(v: JsonValue, key: Seq<char>) -> Option<JsonValue> {
    match v {
        JsonValue::Object(members) => lookup_from(members@, key, 0),
        _ => None,
    }
}

/// The text of a value that is a JSON string.
pub open spec fn json_text(v: Option<JsonValue>) -> Option<Seq<char>> {
    match v {
        Some(JsonValue::Str(s)) => Some(s@),
        _ => None,
    }
}

/// The text of the string member `key` of `v`, if there is one.
pub open spec fn str_member(v: JsonValue, key: Seq<char>) -> Option<Seq<char>> {
    json_text(json_get(v, key))
}

pub open spec fn is_object(v: JsonValue) -> bool {
    v is Object
}

impl JsonValue {
    /// Looks up the member `key` of an object.
    pub fn get(&self, key: &str) -> (res: Option<&JsonValue>)
        ensures
            match res {
                Some(r) => json_get(*self, key@) == Some(*r),
                None => json_get(*self, key@) is None,
            },
    {
        match self {
            JsonValue::Object(members) => {
                let k = String::from_str(key);
                let n = members.len();
                let mut i: usize = 0;
                while i < n
                    invariant
                        n == members@.len(),
                        0 <= i <= n,
                        k@ == key@,
                        json_get(*self, key@) == lookup_from(members@, key@, 0),
                        lookup_from(members@, key@, 0) == lookup_from(members@, key@, i as int),
                    decreases n - i,
                {
                    if members[i].0 == k {
                        assert(members@[i as int].0@ == key@);
                        assert(lookup_from(members@, key@, i as int) == Some(members@[i as int].1));
                        return Some(&members[i].1);
                    }
                    i = i + 1;
                }
                None
            },
            _ => None,
        }
    }

    /// The text of a string value.
    pub fn as_str(&self) -> (res: Option<&str>)
        ensures
            match res {
                Some(s) => json_text(Some(*self)) == Some(s@),
                None => json_text(Some(*self)) is None,
            },
    {
        match self {
            JsonValue::Str(s) => Some(s.as_str()),
            _ => None,
        }
    }

    pub fn is_object(&self) -> (res: bool)
        ensures
            res == is_object(*self),
    {
        match self {
            JsonValue::Object(_) => true,
            _ => false,
        }
    }
}

/// Looks up `key` in `v` and returns the member's text if it is a string.
pub fn get_str<'a>(v: &'a JsonValue, key: &str) -> (res: Option<&'a str>)
    ensures
        match res {
            Some(s) => str_member(*v, key@) == Some(s@),
            None => str_member(*v, key@) is None,
        },
{
    match v.get(key) {
        Some(m) => m.as_str(),
        None => None,
    }
}

/// What `serde_json::from_str::<serde_json::Value>` makes of a text:
/// the document, or the text of the parser's error.
pub uninterp spec fn serde_json_from_str(text: Seq<char>) -> Result<JsonValue, Seq<char>>;

/// What `serde_json::from_slice::<serde_json::Value>` makes of a byte string:
/// the document, or the text of the parser's error.
pub uninterp spec fn serde_json_from_slice(bytes: Seq<u8>) -> Result<JsonValue, Seq<char>>;

#[verifier::external_type_specification]
#[verifier::external_body]
pub struct ExSerdeJsonValue(serde_json::Value);

/// Rebuilds a `serde_json::Value` as a `JsonValue`, variant for variant
/// (numbers by their `Display` text, object members in the map's order).
/// Nothing is claimed of the result here; the parsing wrappers name it.
#[verifier::external_body]
fn json_from_serde(v: &serde_json::Value) -> JsonValue {
    match v {
        serde_json::Value::Null => JsonValue::Null,
        serde_json::Value::Bool(b) => JsonValue::Bool(*b),
        serde_json::Value::Number(n) => JsonValue::Number(n.to_string()),
        serde_json::Value::String(s) => JsonValue::Str(s.clone()),
        serde_json::Value::Array(a) => JsonValue::Array(a.iter().map(json_from_serde).collect()),
        serde_json::Value::Object(m) => JsonValue::Object(
            m.iter().map(|(k, x)| (k.clone(), json_from_serde(x))).collect(),
        ),
    }
}

/// Parses JSON text with `serde_json::from_str` into a `serde_json::Value`;
/// the contract says that the outcome is the one `serde_json_from_str` names.
#[verifier::external_body]
pub(crate) fn parse_json_text(text: &str) -> (res: Result<JsonValue, String>)
    ensures
        match res {
            Ok(v) => serde_json_from_str(text@) == Ok::<JsonValue, Seq<char>>(v),
            Err(e) => serde_json_from_str(text@) == Err::<JsonValue, Seq<char>>(e@),
        },
{
    match serde_json::from_str::<serde_json::Value>(text) {
        Ok(v) => Ok(json_from_serde(&v)),
        Err(e) => Err(e.to_string()),
    }
}

/// Parses JSON bytes with `serde_json::from_slice` into a `serde_json::Value`;
/// the contract says that the outcome is the one `serde_json_from_slice` names.
#[verifier::external_body]
pub(crate) fn parse_json_bytes(bytes: &[u8]) -> (res: Result<JsonValue, String>)
    ensures
        match res {
            Ok(v) => serde_json_from_slice(bytes@) == Ok::<JsonValue, Seq<char>>(v),
            Err(e) => serde_json_from_slice(bytes@) == Err::<JsonValue, Seq<char>>(e@),
        },
{
    match serde_json::from_slice::<serde_json::Value>(bytes) {
        Ok(v) => Ok(json_from_serde(&v)),
        Err(e) => Err(e.to_string()),
    }
}

} // verus!
