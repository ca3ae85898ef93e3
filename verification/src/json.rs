//! The boundary to `serde_json`.
//!
//! A parsed document is held as a `serde_json::Value`, which is opaque to the
//! verifier. Its mathematical content is a [`Json`] tree, and the accessors
//! of `serde_json` that this library calls are described over that tree.
//! Nothing in this file is proved: the contracts of the functions below are
//! assumptions about the parser crate.

use vstd::prelude::*;

verus! {

#[verifier::external_type_specification]
#[verifier::external_body]
pub struct ExValue(serde_json::Value);

#[verifier::external_type_specification]
#[verifier::external_body]
pub struct ExError(serde_json::Error);

#[verifier::external_type_specification]
#[verifier::external_body]
#[verifier::reject_recursive_types(K)]
#[verifier::reject_recursive_types(V)]
pub struct ExMap<K, V>(serde_json::Map<K, V>);

/// A JSON document as a mathematical value. A number is kept as the text
/// that stands for it; an object is the sequence of its members in the order
/// in which the object yields them, and no two members share a name.
pub ghost enum Json {
    Null,
    Bool(bool),
    Number(Seq<char>),
    Text(Seq<char>),
    Array(Seq<Json>),
    Object(Seq<(Seq<char>, Json)>),
}

impl Json {
    /// The member of an object that stands under `key`.
    pub open spec fn member(self, key: Seq<char>) -> Option<Json> {
        match self {
            Json::Object(fields) => {
                if exists|i: int| 0 <= i < fields.len() && (#[trigger] fields[i]).0 == key {
                    Some(
                        fields[choose|i: int|
                            0 <= i < fields.len() && (#[trigger] fields[i]).0 == key].1,
                    )
                } else {
                    None
                }
            },
            _ => None,
        }
    }

    /// The characters of a string.
    pub open spec fn text(self) -> Option<Seq<char>> {
        match self {
            Json::Text(s) => Some(s),
            _ => None,
        }
    }

    /// The elements of an array, in order.
    pub open spec fn items(self) -> Option<Seq<Json>> {
        match self {
            Json::Array(items) => Some(items),
            _ => None,
        }
    }

    /// The names of the members of an object, in order.
    pub open spec fn names(self) -> Option<Seq<Seq<char>>> {
        match self {
            Json::Object(fields) => Some(field_names(fields)),
            _ => None,
        }
    }
}

/// The names of a sequence of members, in order.
pub open spec fn field_names(fields: Seq<(Seq<char>, Json)>) -> Seq<Seq<char>> {
    Seq::new(fields.len(), |i: int| fields[i].0)
}

/// The document that a `serde_json::Value` holds.
pub uninterp spec fn document(v: serde_json::Value) -> Json;

/// The members that a `serde_json::Map` holds, each with the document of its
/// value, in the order in which the map yields them.
pub uninterp spec fn members(m: serde_json::Map<String, serde_json::Value>) -> Seq<(Seq<char>, Json)>;

/// What `serde_json::from_slice::<Value>` makes of these bytes: the document
/// they spell, or the message of the parser's error.
pub uninterp spec fn parsed(bytes: Seq<u8>) -> Result<Json, Seq<char>>;

/// The compact JSON text that `Display` writes for a value holding this document.
pub uninterp spec fn rendering(doc: Json) -> Seq<char>;

/// The message that `Display` writes for a parse error.
pub uninterp spec fn failure_text(e: serde_json::Error) -> Seq<char>;

/// The documents that a sequence of values holds, element by element.
pub open spec fn documents(values: Seq<serde_json::Value>) -> Seq<Json> {
    Seq::new(values.len(), |i: int| document(values[i]))
}

/// The views of a sequence of strings, element by element.
pub open spec fn texts(names: Seq<String>) -> Seq<Seq<char>> {
    Seq::new(names.len(), |i: int| names[i]@)
}

/// Calls `serde_json::from_slice::<Value>`. Assumed: the parser is a function
/// of the bytes alone; the value it returns holds the document that `parsed`
/// names, and the error it returns has the message that `parsed` names.
#[verifier::external_body]
pub(crate) fn parse_value(bytes: &[u8]) -> (r: Result<serde_json::Value, serde_json::Error>)
    ensures
        match r {
            Ok(v) => parsed(bytes@) == Ok::<Json, Seq<char>>(document(v)),
            Err(e) => parsed(bytes@) == Err::<Json, Seq<char>>(failure_text(e)),
        },
{
    serde_json::from_slice::<serde_json::Value>(bytes)
}

/// Calls `Value::get` with a string key. Assumed: for an object that has a
/// member under the key the answer is that member; for every other value it
/// is `None`.
#[verifier::external_body]
pub(crate) fn get_member<'a>(v: &'a serde_json::Value, key: &str) -> (r: Option<&'a serde_json::Value>)
    ensures
        match r {
            Some(m) => document(*v).member(key@) == Some(document(*m)),
            None => document(*v).member(key@) is None,
        },
{
    v.get(key)
}

/// Calls `Value::as_array`. Assumed: for an array the answer is the vector of
/// its elements, in order; for every other value it is `None`.
#[verifier::external_body]
pub(crate) fn get_elements<'a>(v: &'a serde_json::Value) -> (r: Option<&'a Vec<serde_json::Value>>)
    ensures
        match r {
            Some(items) => document(*v).items() == Some(documents(items@)),
            None => document(*v).items() is None,
        },
{
    v.as_array()
}

/// Calls `Value::as_str`. Assumed: for a string the answer is its
/// characters; for every other value it is `None`.
#[verifier::external_body]
pub(crate) fn get_string<'a>(v: &'a serde_json::Value) -> (r: Option<&'a str>)
    ensures
        match r {
            Some(s) => document(*v).text() == Some(s@),
            None => document(*v).text() is None,
        },
{
    v.as_str()
}

/// Calls `Value::as_object`. Assumed: for an object the answer is the map of
/// its members; for every other value it is `None`.
#[verifier::external_body]
pub(crate) fn get_object<'a>(v: &'a serde_json::Value) -> (r: Option<&'a serde_json::Map<String, serde_json::Value>>)
    ensures
        match r {
            Some(m) => document(*v) == Json::Object(members(*m)),
            None => !(document(*v) is Object),
        },
{
    v.as_object()
}

/// Calls `Map::keys` and copies what it yields. Assumed: these are the names
/// of the members, in the order of the map.
#[verifier::external_body]
pub(crate) fn member_names(m: &serde_json::Map<String, serde_json::Value>) -> (r: Vec<String>)
    ensures
        texts(r@) == field_names(members(*m)),
{
    m.keys().cloned().collect()
}

/// Calls `to_string` on a `Value`, which goes through its `Display` impl.
/// Assumed: the text depends on the document alone and is the one that
/// `rendering` names.
#[verifier::external_body]
pub(crate) fn render(v: &serde_json::Value) -> (r: String)
    ensures
        r@ == rendering(document(*v)),
{
    v.to_string()
}

/// Calls `to_string` on a `serde_json::Error`, which goes through its
/// `Display` impl. Assumed: the text is the one that `failure_text` names.
#[verifier::external_body]
pub(crate) fn describe_failure(e: &serde_json::Error) -> (r: String)
    ensures
        r@ == failure_text(*e),
{
    e.to_string()
}

} // verus!
