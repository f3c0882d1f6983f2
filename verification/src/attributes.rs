//! Telemetry attributes: a key and a string or integer value.

use opentelemetry::KeyValue;
use vstd::prelude::*;

verus! {

/// The value of an attribute.
pub enum AttributeValue {
    Str(String),
    Int(i64),
}

/// The mathematical value of an attribute value.
pub enum SpecValue {
    Str(Seq<char>),
    Int(i64),
}

impl View for AttributeValue {
    type V = SpecValue;

    open spec fn view(&self) -> SpecValue {
        match self {
            AttributeValue::Str(s) => SpecValue::Str(s@),
            AttributeValue::Int(i) => SpecValue::Int(*i),
        }
    }
}

/// A key with its value, as attached to spans, metrics and resources.
pub struct Attribute {
    pub key: String,
    pub value: AttributeValue,
}

impl View for Attribute {
    type V = (Seq<char>, SpecValue);

    open spec fn view(&self) -> (Seq<char>, SpecValue) {
        (self.key@, self.value@)
    }
}

/// The mathematical value of a list of attributes.
pub open spec fn attrs_view(v: Seq<Attribute>) -> Seq<(Seq<char>, SpecValue)> {
    v.map_values(|a: Attribute| a@)
}

/// The HTTP attribute names retired when the semantic conventions for HTTP
/// became stable.
pub open spec fn retired_attribute_name(k: Seq<char>) -> bool {
    ||| k == "http.method"@
    ||| k == "http.target"@
    ||| k == "http.host"@
    ||| k == "http.scheme"@
    ||| k == "http.user_agent"@
    ||| k == "http.status_code"@
    ||| k == "http.response_content_length"@
}

/// An attribute with a string value.
pub fn str_attribute(key: &str, value: &str) -> (a: Attribute)
    ensures
        a@ == (key@, SpecValue::Str(value@)),
{
    Attribute { key: key.to_owned(), value: AttributeValue::Str(value.to_owned()) }
}

/// An attribute with an integer value.
pub fn int_attribute(key: &str, value: i64) -> (a: Attribute)
    ensures
        a@ == (key@, SpecValue::Int(value)),
{
    Attribute { key: key.to_owned(), value: AttributeValue::Int(value) }
}

/// The OpenTelemetry key-value pair for an attribute.
pub open spec fn key_value_of(a: (Seq<char>, SpecValue)) -> KeyValue {
    match a.1 {
        SpecValue::Str(s) => crate::sdk::string_key_value(a.0, s),
        SpecValue::Int(i) => crate::sdk::i64_key_value(a.0, i),
    }
}

/// The OpenTelemetry key-value pairs for a list of attributes, one for one
/// and in order.
pub fn to_key_values(attrs: Vec<Attribute>) -> (r: Vec<KeyValue>)
    ensures
        r@.len() == attrs@.len(),
        forall|i: int| 0 <= i < attrs@.len() ==> #[trigger] r@[i] == key_value_of(attrs@[i]@),
        forall|i: int|
            0 <= i < attrs@.len() ==> crate::sdk::key_value_key(#[trigger] r@[i]) == attrs@[i]@.0,
{
    let ghost before = attrs@;
    let mut r: Vec<KeyValue> = Vec::new();
    for a in it: attrs
        invariant
            it.seq() == before,
            r@.len() == it.index(),
            forall|j: int| 0 <= j < it.index() ==> #[trigger] r@[j] == key_value_of(before[j]@),
            forall|j: int|
                0 <= j < it.index() ==> crate::sdk::key_value_key(#[trigger] r@[j]) == before[j]@.0,
    {
        let Attribute { key, value } = a;
        let kv = match value {
            AttributeValue::Str(s) => crate::sdk::key_value_str(key, s),
            AttributeValue::Int(i) => crate::sdk::key_value_i64(key, i),
        };
        r.push(kv);
    }
    r
}

} // verus!
