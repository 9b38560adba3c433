use vstd::prelude::*;

use crate::json::JsonValue;

verus! {

#[verifier::external_type_specification]
#[verifier::external_body]
pub struct ExValue(serde_json::Value);

/// What decoding a frame yields: the structured value the text denotes, or
/// nothing when the text is not well formed. A function of the text alone.
pub uninterp spec fn parsed_frame(s: Seq<char>) -> Option<JsonValue>;

/// What encoding a value yields. A function of the value alone.
pub uninterp spec fn rendered_frame(v: JsonValue) -> Seq<char>;

/// Carries a decoded `serde_json::Value` over into the protocol's own value
/// type, variant by variant: integral numbers keep their value, and a number
/// that is neither a signed nor an unsigned integer becomes null.
#[verifier::external_body]
fn value_model(v: serde_json::Value) -> JsonValue {
    match v {
        serde_json::Value::Null => JsonValue::Null,
        serde_json::Value::Bool(b) => JsonValue::Bool(b),
        serde_json::Value::Number(n) => match (n.as_i64(), n.as_u64()) {
            (Some(i), _) => JsonValue::Int(i),
            (None, Some(u)) => JsonValue::UInt(u),
            (None, None) => JsonValue::Null,
        },
        serde_json::Value::String(s) => JsonValue::Str(s),
        serde_json::Value::Array(a) => JsonValue::Arr(a.into_iter().map(value_model).collect()),
        serde_json::Value::Object(m) => JsonValue::Obj(
            m.into_iter().map(|f| (f.0, value_model(f.1))).collect(),
        ),
    }
}

/// The reverse carry: each variant of the protocol's value type as the
/// `serde_json::Value` it stands for.
#[verifier::external_body]
fn value_of(v: &JsonValue) -> serde_json::Value {
    match v {
        JsonValue::Null => serde_json::Value::Null,
        JsonValue::Bool(b) => serde_json::Value::from(*b),
        JsonValue::Int(i) => serde_json::Value::from(*i),
        JsonValue::UInt(u) => serde_json::Value::from(*u),
        JsonValue::Str(s) => serde_json::Value::from(s.as_str()),
        JsonValue::Arr(a) => serde_json::Value::Array(a.iter().map(value_of).collect()),
        JsonValue::Obj(fs) => serde_json::Value::Object(
            fs.iter().map(|f| (f.0.clone(), value_of(&f.1))).collect(),
        ),
    }
}

/// Relies on serde_json::from_str: a well-formed text decodes to its value,
/// any other text is rejected; the outcome depends on the text alone.
#[verifier::external_body]
pub fn parse_frame(s: &str) -> (r: Option<JsonValue>)
    ensures
        r == parsed_frame(s@),
{
    match serde_json::from_str::<serde_json::Value>(s) {
        Ok(v) => Some(value_model(v)),
        Err(_) => None,
    }
}

/// Relies on serde_json::to_string: a value encodes to one text, a function
/// of the value alone; serialization of a plain value does not fail.
#[verifier::external_body]
pub fn render_frame(v: &JsonValue) -> (r: Option<String>)
    ensures
        r matches Some(t) ==> t@ == rendered_frame(*v),
{
    match serde_json::to_string(&value_of(v)) {
        Ok(t) => Some(t),
        Err(_) => None,
    }
}

} // verus!
