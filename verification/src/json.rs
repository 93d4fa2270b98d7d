//! JSON values of `serde_json`: the values that travel through the client and
//! the few operations that it performs on them.
use vstd::prelude::*;

verus! {

/// `serde_json::Value`, a JSON value.
#[verifier::external_type_specification]
#[verifier::external_body]
pub struct ExValue(serde_json::Value);

/// `serde_json::Map`, the members of a JSON object.
#[verifier::external_type_specification]
#[verifier::external_body]
#[verifier::reject_recursive_types(K)]
#[verifier::reject_recursive_types(V)]
pub struct ExMap<K, V>(serde_json::Map<K, V>);

/// The members of a JSON object by their keys; `None` for a value that is no
/// object.
pub uninterp spec fn object_members(v: serde_json::Value) -> Option<
    Map<Seq<char>, serde_json::Value>,
>;

/// The members of an empty object.
pub open spec fn no_members() -> Map<Seq<char>, serde_json::Value> {
    Map::empty()
}

/// Whether the value is the JSON `null`.
pub uninterp spec fn is_null(v: serde_json::Value) -> bool;

/// The JSON `true` or `false`.
pub uninterp spec fn bool_value(b: bool) -> serde_json::Value;

/// The members that a `serde_json::Map` holds, by their keys.
pub uninterp spec fn map_members(m: serde_json::Map<String, serde_json::Value>) -> Map<
    Seq<char>,
    serde_json::Value,
>;

/// `serde_json::Value::get` with a string as the index: the member of that key
/// where the value is an object that has it, and `None` otherwise.
#[verifier::external_body]
pub(crate) fn get<'a>(value: &'a serde_json::Value, key: &str) -> (r: Option<&'a serde_json::Value>)
    ensures
        r == (match object_members(*value) {
            Some(members) => if members.contains_key(key@) {
                Some(&members[key@])
            } else {
                None
            },
            None => None,
        }),
{
    value.get(key)
}

/// Assignment through `IndexMut` of `serde_json::Value` with a string as the
/// index: sets the member of that key in an object and keeps the others. `null`
/// is taken as an empty object. On any other value it panics, so the contract
/// leaves those out.
#[verifier::external_body]
pub(crate) fn set(value: &mut serde_json::Value, key: &str, member: serde_json::Value)
    requires
        object_members(*old(value)) is Some || is_null(*old(value)),
    ensures
        object_members(*final(value)) == (match object_members(*old(value)) {
            Some(members) => Some(members.insert(key@, member)),
            None => Some(no_members().insert(key@, member)),
        }),
{
    value[key] = member;
}

/// `serde_json::Value::is_null`.
#[verifier::external_body]
pub(crate) fn value_is_null(value: &serde_json::Value) -> (r: bool)
    ensures
        r == is_null(*value),
{
    value.is_null()
}

/// `serde_json::Value::as_object`: the map of an object's members, and `None`
/// for a value that is no object.
#[verifier::external_body]
pub(crate) fn as_object(value: &serde_json::Value) -> (r: Option<
    &serde_json::Map<String, serde_json::Value>,
>)
    ensures
        match r {
            Some(map) => object_members(*value) == Some(map_members(*map)),
            None => object_members(*value) is None,
        },
{
    value.as_object()
}

/// `From<bool>` of `serde_json::Value`.
#[verifier::external_body]
pub(crate) fn from_bool(b: bool) -> (r: serde_json::Value)
    ensures
        r == bool_value(b),
{
    serde_json::Value::from(b)
}

/// `From<Map<String, Value>>` of `serde_json::Value`: an object with the members
/// of the map.
#[verifier::external_body]
pub(crate) fn from_map(map: serde_json::Map<String, serde_json::Value>) -> (r: serde_json::Value)
    ensures
        object_members(r) == Some(map_members(map)),
{
    serde_json::Value::from(map)
}

/// `serde_json::Map::new`: a map without members.
#[verifier::external_body]
pub(crate) fn empty_map() -> (r: serde_json::Map<String, serde_json::Value>)
    ensures
        map_members(r) == no_members(),
{
    serde_json::Map::new()
}

/// `Clone` of `serde_json::Map`: the copy is equal to what it is a copy of.
#[verifier::external_body]
pub(crate) fn copy_map(map: &serde_json::Map<String, serde_json::Value>) -> (r: serde_json::Map<
    String,
    serde_json::Value,
>)
    ensures
        r == *map,
{
    map.clone()
}

/// `Clone` of `serde_json::Value`: the copy is equal to what it is a copy of.
#[verifier::external_body]
pub(crate) fn copy_value(value: &serde_json::Value) -> (r: serde_json::Value)
    ensures
        r == *value,
{
    value.clone()
}

} // verus!
