//! Documents for other programs.

use vstd::prelude::*;

verus! {

/// A value of a document.
#[verifier::external_type_specification]
#[verifier::external_body]
pub struct ExJsonValue(serde_json::Value);

/// The members of an object.
#[verifier::external_type_specification]
#[verifier::external_body]
#[verifier::reject_recursive_types(K)]
#[verifier::reject_recursive_types(V)]
pub struct ExJsonMap<K, V>(serde_json::Map<K, V>);

/// What a value of a document holds.
pub enum JsonModel {
    Null,
    Boolean(bool),
    /// A number that is not negative.
    Number(u64),
    Text(Seq<char>),
    List(Seq<JsonModel>),
    Object(Map<Seq<char>, JsonModel>),
    /// Another number.
    Other(serde_json::Value),
}

/// An object without members.
pub open spec fn no_members() -> Map<Seq<char>, JsonModel> {
    Map::empty()
}

/// The members of an object, by name.
pub uninterp spec fn members_model(m: serde_json::Map<String, serde_json::Value>) -> Map<Seq<char>, JsonModel>;

/// What a value holds.
pub uninterp spec fn json_model(v: serde_json::Value) -> JsonModel;

/// What values hold.
pub open spec fn json_models(v: Seq<serde_json::Value>) -> Seq<JsonModel> {
    v.map_values(|x: serde_json::Value| json_model(x))
}

/// The document that a value is written as.
pub uninterp spec fn json_document(m: JsonModel) -> Seq<char>;

/// `Map::new`: no members.
#[verifier::external_body]
pub(crate) fn new_members() -> (r: serde_json::Map<String, serde_json::Value>)
    ensures
        members_model(r) == no_members(),
{
    serde_json::Map::new()
}

/// `Map::insert`: sets the member `key`; the value that it had is dropped.
#[verifier::external_body]
pub(crate) fn put_member(
    m: &mut serde_json::Map<String, serde_json::Value>,
    key: &str,
    value: serde_json::Value,
)
    ensures
        members_model(*final(m)) == members_model(*old(m)).insert(key@, json_model(value)),
{
    m.insert(key.to_owned(), value);
}

/// `Value::Object`.
#[verifier::external_body]
pub(crate) fn object_value(m: serde_json::Map<String, serde_json::Value>) -> (r: serde_json::Value)
    ensures
        json_model(r) == JsonModel::Object(members_model(m)),
{
    serde_json::Value::Object(m)
}

/// `Value::Array`.
#[verifier::external_body]
pub(crate) fn list_value(values: Vec<serde_json::Value>) -> (r: serde_json::Value)
    ensures
        json_model(r) == JsonModel::List(json_models(values@)),
{
    serde_json::Value::Array(values)
}

/// `Value::String`.
#[verifier::external_body]
pub(crate) fn text_json(s: &str) -> (r: serde_json::Value)
    ensures
        json_model(r) == JsonModel::Text(s@),
{
    serde_json::Value::String(s.to_owned())
}

/// `Value::Number`, of a number that is not negative.
#[verifier::external_body]
pub(crate) fn number_json(n: u64) -> (r: serde_json::Value)
    ensures
        json_model(r) == JsonModel::Number(n),
{
    serde_json::Value::Number(n.into())
}

/// `Value::Bool`.
#[verifier::external_body]
pub(crate) fn boolean_json(b: bool) -> (r: serde_json::Value)
    ensures
        json_model(r) == JsonModel::Boolean(b),
{
    serde_json::Value::Bool(b)
}

/// `Value::Null`.
#[verifier::external_body]
pub(crate) fn null_json() -> (r: serde_json::Value)
    ensures
        json_model(r) == JsonModel::Null,
{
    serde_json::Value::Null
}

/// `serde_json::to_string_pretty`: there is a document for every value, and it is a
/// function of what the value holds.
#[verifier::external_body]
pub(crate) fn pretty_document(v: &serde_json::Value) -> (r: Option<String>)
    ensures
        r is Some,
        r->0@ == json_document(json_model(*v)),
{
    serde_json::to_string_pretty(v).ok()
}

/// What an optional text is written as.
pub open spec fn optional_text(t: Option<String>) -> JsonModel {
    match t {
        Some(s) => JsonModel::Text(s@),
        None => JsonModel::Null,
    }
}

/// An optional text.
pub fn optional_text_json(t: &Option<String>) -> (r: serde_json::Value)
    ensures
        json_model(r) == optional_text(*t),
{
    match t {
        Some(s) => text_json(s.as_str()),
        None => null_json(),
    }
}

/// The member of an object under a key.
pub open spec fn member(v: JsonModel, key: Seq<char>) -> Option<JsonModel> {
    match v {
        JsonModel::Object(m) => if m.contains_key(key) {
            Some(m[key])
        } else {
            None
        },
        _ => None,
    }
}

/// A text that there is stands as it is, one that is missing as nothing.
pub proof fn missing_texts_are_null(t: String)
    ensures
        optional_text(Some(t)) == JsonModel::Text(t@),
        optional_text(None) == JsonModel::Null,
{
}

} // verus!
