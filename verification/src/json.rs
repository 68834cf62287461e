use vstd::prelude::*;

verus! {

/// `serde_json::Value`: a JSON document. Nothing of its inside is looked at
/// here; what is said of one is said over `json_of`.
#[verifier::external_type_specification]
#[verifier::external_body]
pub struct ExValue(serde_json::Value);

/// `serde_json::Error`: why a value did not deserialize. It is carried,
/// never read.
#[verifier::external_type_specification]
#[verifier::external_body]
pub struct ExJsonError(serde_json::Error);

/// The shape of a JSON document, as far as reading a configuration looks at
/// it. A number is told apart from the other kinds, its value is not kept.
pub enum Json {
    Null,
    Bool(bool),
    Number,
    Text(Seq<char>),
    List(Seq<Json>),
    Object(Map<Seq<char>, Json>),
}

/// The document that a `serde_json::Value` holds.
pub uninterp spec fn json_of(value: serde_json::Value) -> Json;

/// The member of an object under a key: `None` where the document is no
/// object or has no such key.
pub open spec fn member(json: Json, key: Seq<char>) -> Option<Json> {
    match json {
        Json::Object(fields) => if fields.contains_key(key) {
            Some(fields[key])
        } else {
            None
        },
        _ => None,
    }
}

/// Each element's document, in order.
pub open spec fn jsons_of(values: Seq<serde_json::Value>) -> Seq<Json> {
    values.map_values(|value: serde_json::Value| json_of(value))
}

/// `Value::get` with a string key. By its source it looks the key up in an
/// object's map and answers `None` for every other kind of value; the
/// contract says so over `json_of`.
#[verifier::external_body]
pub(crate) fn get_member<'a>(value: &'a serde_json::Value, key: &str) -> (found: Option<
    &'a serde_json::Value,
>)
    ensures
        match found {
            Some(inner) => member(json_of(*value), key@) == Some(json_of(*inner)),
            None => member(json_of(*value), key@) is None,
        },
{
    value.get(key)
}

/// `Value::as_array`: the elements of an array, `None` for every other kind
/// of value.
#[verifier::external_body]
pub(crate) fn as_list<'a>(value: &'a serde_json::Value) -> (found: Option<
    &'a Vec<serde_json::Value>,
>)
    ensures
        match found {
            Some(items) => json_of(*value) == Json::List(jsons_of(items@)),
            None => !(json_of(*value) is List),
        },
{
    value.as_array()
}

/// `Value::as_str`: the text of a string, `None` for every other kind of
/// value.
#[verifier::external_body]
pub(crate) fn as_text<'a>(value: &'a serde_json::Value) -> (found: Option<&'a str>)
    ensures
        match found {
            Some(text) => json_of(*value) == Json::Text(text@),
            None => !(json_of(*value) is Text),
        },
{
    value.as_str()
}

/// `serde_json::from_value` at type `bool`, on a copy of the value. By the
/// source of the value's deserializer a JSON boolean gives its flag and every
/// other kind of value is an error.
#[verifier::external_body]
pub(crate) fn as_flag(value: &serde_json::Value) -> (parsed: Result<bool, serde_json::Error>)
    ensures
        match parsed {
            Ok(flag) => json_of(*value) == Json::Bool(flag),
            Err(_) => !(json_of(*value) is Bool),
        },
{
    serde_json::from_value(value.clone())
}

} // verus!
