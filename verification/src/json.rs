use vstd::prelude::*;
use crate::text::decimal_text;

verus! {

/// `serde_json::Value`, carried through verified code as an opaque value.
#[verifier::external_type_specification]
#[verifier::external_body]
pub struct ExValue(serde_json::Value);

/// What a JSON document is made of. A number stands as its digits, so that
/// integers and fractions need no second model.
pub enum Json {
    Null,
    Bool(bool),
    Number(Seq<char>),
    String(Seq<char>),
    Array(Seq<Json>),
    Object(Map<Seq<char>, Json>),
}

/// The document that a `serde_json::Value` holds.
pub uninterp spec fn json_of(v: serde_json::Value) -> Json;

/// The members of an object built from `fields` in order, where a later
/// field replaces an earlier one of the same name.
pub open spec fn members(fields: Seq<(String, serde_json::Value)>) -> Map<Seq<char>, Json>
    decreases fields.len(),
{
    if fields.len() == 0 {
        Map::empty()
    } else {
        members(fields.drop_last()).insert(fields.last().0@, json_of(fields.last().1))
    }
}

/// `serde_json::Value::String`: the JSON string with the text of `s`.
#[verifier::external_body]
pub(crate) fn json_string(s: &str) -> (v: serde_json::Value)
    ensures
        json_of(v) == Json::String(s@),
{
    serde_json::Value::String(s.to_string())
}

/// `serde_json::Value::from` on an unsigned integer: the JSON number that
/// is written with the decimal digits of `n`.
#[verifier::external_body]
pub(crate) fn json_number(n: u16) -> (v: serde_json::Value)
    ensures
        json_of(v) == Json::Number(decimal_text(n as nat)),
{
    serde_json::Value::from(n)
}

/// `serde_json::Value::Array`: the JSON array of `items`, in their order.
#[verifier::external_body]
pub(crate) fn json_array(items: Vec<serde_json::Value>) -> (v: serde_json::Value)
    ensures
        json_of(v) == Json::Array(items@.map_values(|item: serde_json::Value| json_of(item))),
{
    serde_json::Value::Array(items)
}

/// `serde_json::Value::Object` over a `serde_json::Map` that starts empty
/// (`Map::new`) and takes the fields in their order by `Map::insert`, which
/// updates the value of a name that the map already has.
#[verifier::external_body]
pub(crate) fn json_object(fields: Vec<(String, serde_json::Value)>) -> (v: serde_json::Value)
    ensures
        json_of(v) == Json::Object(members(fields@)),
{
    let mut map = serde_json::Map::new();
    for (name, value) in fields {
        map.insert(name, value);
    }
    serde_json::Value::Object(map)
}

/// The documents that `items` hold, in their order.
pub open spec fn jsons_of(items: Seq<serde_json::Value>) -> Seq<Json> {
    items.map_values(|item: serde_json::Value| json_of(item))
}

/// `serde_json::Value::as_array`: the elements of an array, and `None` for
/// any other value.
#[verifier::external_body]
pub(crate) fn json_items(v: &serde_json::Value) -> (r: Option<Vec<serde_json::Value>>)
    ensures
        match json_of(*v) {
            Json::Array(items) => r matches Some(found) && jsons_of(found@) == items,
            _ => r is None,
        },
{
    v.as_array().cloned()
}

/// `serde_json::Value::get` with a name: the member of that name of an
/// object, and `None` where there is none or the value is no object.
#[verifier::external_body]
pub(crate) fn json_member(v: &serde_json::Value, key: &str) -> (r: Option<serde_json::Value>)
    ensures
        match json_of(*v) {
            Json::Object(m) => if m.contains_key(key@) {
                r matches Some(found) && json_of(found) == m[key@]
            } else {
                r is None
            },
            _ => r is None,
        },
{
    v.get(key).cloned()
}

/// `serde_json::Value::as_str`: the text of a string, and `None` for any
/// other value.
#[verifier::external_body]
pub(crate) fn json_text(v: &serde_json::Value) -> (r: Option<String>)
    ensures
        match json_of(*v) {
            Json::String(text) => r matches Some(found) && found@ == text,
            _ => r is None,
        },
{
    v.as_str().map(|s| s.to_string())
}

/// The text that the `Debug` form of a `serde_json::Value` has.
pub uninterp spec fn json_debug(json: Json) -> Seq<char>;

/// `format!` with `{:?}` on a `serde_json::Value`.
#[verifier::external_body]
pub(crate) fn json_debug_text(v: &serde_json::Value) -> (r: String)
    ensures
        r@ == json_debug(json_of(*v)),
{
    format!("{:?}", v)
}

} // verus!
