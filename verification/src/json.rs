//! The boundary to the JSON crates.
//!
//! Payloads travel through the library as [`IValue`]s. Verus cannot look
//! inside one, so what a value holds is named by [`json_tree`], and each
//! function below states over that name what the underlying `ijson` or
//! `serde_json` call does. None of these contracts is proved: they are the
//! assumptions that the rest of the library rests on.

use ijson::IValue;
use vstd::prelude::*;

verus! {

/// `ijson::IValue`: one JSON value. Nothing of its inside is known here.
#[verifier::external_type_specification]
#[verifier::external_body]
pub struct ExIValue(ijson::IValue);

/// `serde_json::Error`: why a text could not be read or a value not be
/// written. It is only passed on.
#[verifier::external_type_specification]
#[verifier::external_body]
pub struct ExJsonError(serde_json::Error);

/// What a JSON value holds, as far as this library reads it.
///
/// A number is kept as the `u64` it equals exactly, if it is a non-negative
/// integer in that range; every other number is `Number(None)`.
pub enum JsonTree {
    Null,
    Bool(bool),
    Number(Option<u64>),
    Text(Seq<char>),
    List(Seq<JsonTree>),
    Record(Map<Seq<char>, JsonTree>),
}

/// The contents of a JSON value.
pub uninterp spec fn json_tree(v: IValue) -> JsonTree;

/// The contents of the JSON document that `text` spells, or `None` where
/// `text` is not one JSON document.
pub uninterp spec fn parsed_json(text: Seq<char>) -> Option<JsonTree>;

/// The text that `serde_json` writes for a value, or `None` where it
/// refuses to write it.
pub uninterp spec fn rendered_json(v: IValue) -> Option<Seq<char>>;

/// The object that results from inserting `entries` one after another into
/// an empty object: a later entry replaces an earlier one with the same key.
pub open spec fn record_of(entries: Seq<(String, IValue)>) -> Map<Seq<char>, JsonTree>
    decreases entries.len(),
{
    if entries.len() == 0 {
        Map::empty()
    } else {
        record_of(entries.drop_last()).insert(entries.last().0@, json_tree(entries.last().1))
    }
}

/// `serde_json::from_str::<IValue>`: parses one JSON document. The result's
/// contents are the ones named by [`parsed_json`]; an error comes back
/// exactly where that name is `None`.
#[verifier::external_body]
pub(crate) fn parse(text: &str) -> (r: Result<IValue, serde_json::Error>)
    ensures
        match r {
            Ok(v) => parsed_json(text@) == Some(json_tree(v)),
            Err(_) => parsed_json(text@) is None,
        },
{
    serde_json::from_str::<IValue>(text)
}

/// `serde_json::to_string` on an `IValue`: the compact JSON text of the
/// value, named by [`rendered_json`].
#[verifier::external_body]
pub(crate) fn render(v: &IValue) -> (r: Result<String, serde_json::Error>)
    ensures
        match r {
            Ok(s) => rendered_json(*v) == Some(s@),
            Err(_) => rendered_json(*v) is None,
        },
{
    serde_json::to_string(v)
}

/// `IValue::clone`: an equal value.
pub assume_specification[ <IValue as Clone>::clone ](v: &IValue) -> (r: IValue)
    ensures
        r == *v,
;

/// `IValue::is_null`.
#[verifier::external_body]
pub(crate) fn is_null(v: &IValue) -> (r: bool)
    ensures
        r == (json_tree(*v) is Null),
{
    v.is_null()
}

/// `IValue::is_object`.
#[verifier::external_body]
pub(crate) fn is_object(v: &IValue) -> (r: bool)
    ensures
        r == (json_tree(*v) is Record),
{
    v.is_object()
}

/// `IValue::get` with a string key: the member of an object under `key`, or
/// `None` where the object has no such key. The call panics on anything but
/// an object, so the value must be one.
#[verifier::external_body]
pub(crate) fn member<'a>(v: &'a IValue, key: &str) -> (r: Option<&'a IValue>)
    requires
        json_tree(*v) is Record,
    ensures
        match r {
            Some(m) => json_tree(*v)->Record_0.contains_key(key@) && json_tree(*m)
                == json_tree(*v)->Record_0[key@],
            None => !json_tree(*v)->Record_0.contains_key(key@),
        },
{
    v.get(key)
}

/// `IValue::to_u64`: the value as a `u64` where it is a number that equals
/// one exactly, else `None`.
#[verifier::external_body]
pub(crate) fn to_u64(v: &IValue) -> (r: Option<u64>)
    ensures
        r == (match json_tree(*v) {
            JsonTree::Number(n) => n,
            _ => None,
        }),
{
    v.to_u64()
}

/// `IValue::as_string`, copied into a `String`: the text of a JSON string,
/// `None` for every other kind of value.
#[verifier::external_body]
pub(crate) fn to_text(v: &IValue) -> (r: Option<String>)
    ensures
        match json_tree(*v) {
            JsonTree::Text(s) => r matches Some(t) && t@ == s,
            _ => r is None,
        },
{
    v.as_string().map(|s| s.as_str().to_owned())
}

/// `IValue::as_array`, with the items cloned into a `Vec`: the items of a
/// JSON array in order, `None` for every other kind of value.
#[verifier::external_body]
pub(crate) fn to_items(v: &IValue) -> (r: Option<Vec<IValue>>)
    ensures
        match json_tree(*v) {
            JsonTree::List(items) => r matches Some(vec) && vec@.len() == items.len()
                && forall|i: int|
                0 <= i < items.len() ==> json_tree(#[trigger] vec@[i]) == items[i],
            _ => r is None,
        },
{
    v.as_array().map(|a| a.iter().cloned().collect())
}

/// `IValue::NULL`.
#[verifier::external_body]
pub(crate) fn null() -> (r: IValue)
    ensures
        json_tree(r) == JsonTree::Null,
{
    IValue::NULL
}

/// `IValue::from(bool)`.
#[verifier::external_body]
pub(crate) fn from_bool(b: bool) -> (r: IValue)
    ensures
        json_tree(r) == JsonTree::Bool(b),
{
    IValue::from(b)
}

/// `IValue::from(u64)`: the number `n`.
#[verifier::external_body]
pub(crate) fn from_u64(n: u64) -> (r: IValue)
    ensures
        json_tree(r) == JsonTree::Number(Some(n)),
{
    IValue::from(n)
}

/// `IValue::from(&str)`: the JSON string with the text of `s`.
#[verifier::external_body]
pub(crate) fn from_text(s: &str) -> (r: IValue)
    ensures
        json_tree(r) == JsonTree::Text(s@),
{
    IValue::from(s)
}

/// `IValue::from(Vec<IValue>)`: the JSON array of the items, in order.
#[verifier::external_body]
pub(crate) fn from_items(items: Vec<IValue>) -> (r: IValue)
    ensures
        json_tree(r) == JsonTree::List(Seq::new(items@.len(), |i: int| json_tree(items@[i]))),
{
    IValue::from(items)
}

/// `IValue::from_iter` over key-value pairs: the JSON object that holds
/// each entry, built by inserting them in order.
#[verifier::external_body]
pub(crate) fn from_members(entries: Vec<(String, IValue)>) -> (r: IValue)
    ensures
        json_tree(r) == JsonTree::Record(record_of(entries@)),
{
    entries.into_iter().collect::<IValue>()
}

/// Inserting entries one after another: one more entry is one more insert.
pub proof fn lemma_record_of_push(entries: Seq<(String, IValue)>, entry: (String, IValue))
    ensures
        record_of(entries.push(entry)) == record_of(entries).insert(
            entry.0@,
            json_tree(entry.1),
        ),
{
    assert(entries.push(entry).drop_last() =~= entries);
}

/// The member of an object under `key`, where `null` counts as absent.
pub open spec fn field(members: Map<Seq<char>, JsonTree>, key: Seq<char>) -> Option<JsonTree> {
    if members.contains_key(key) && !(members[key] is Null) {
        Some(members[key])
    } else {
        None
    }
}

/// An optional unsigned member: `Some(None)` where it is absent or `null`,
/// `Some(Some(n))` where it is the number `n`, `None` where it is anything
/// else.
pub open spec fn optional_number(members: Map<Seq<char>, JsonTree>, key: Seq<char>) -> Option<
    Option<u64>,
> {
    match field(members, key) {
        None => Some(None),
        Some(JsonTree::Number(Some(n))) => Some(Some(n)),
        Some(_) => None,
    }
}

/// An optional text member, read as [`optional_number`] reads a number.
pub open spec fn optional_text(members: Map<Seq<char>, JsonTree>, key: Seq<char>) -> Option<
    Option<Seq<char>>,
> {
    match field(members, key) {
        None => Some(None),
        Some(JsonTree::Text(s)) => Some(Some(s)),
        Some(_) => None,
    }
}

/// A pair of unsigned numbers written as a two-item array.
pub open spec fn pair_of(tree: JsonTree) -> Option<(u64, u64)> {
    match tree {
        JsonTree::List(items) => if items.len() == 2 {
            match (items[0], items[1]) {
                (JsonTree::Number(Some(a)), JsonTree::Number(Some(b))) => Some((a, b)),
                _ => None,
            }
        } else {
            None
        },
        _ => None,
    }
}

/// An optional pair member, read as [`optional_number`] reads a number.
pub open spec fn optional_pair(members: Map<Seq<char>, JsonTree>, key: Seq<char>) -> Option<
    Option<(u64, u64)>,
> {
    match field(members, key) {
        None => Some(None),
        Some(t) => match pair_of(t) {
            Some(p) => Some(Some(p)),
            None => None,
        },
    }
}

/// Appends one entry to the list that an object is built from.
pub(crate) fn put(entries: &mut Vec<(String, IValue)>, key: &str, value: IValue)
    ensures
        record_of(final(entries)@) == record_of(old(entries)@).insert(key@, json_tree(value)),
{
    let name = String::from_str(key);
    proof {
        lemma_record_of_push(entries@, (name, value));
    }
    entries.push((name, value));
}

/// The member under `key` of an object, with `null` read as absent.
pub(crate) fn present<'a>(v: &'a IValue, key: &str) -> (r: Option<&'a IValue>)
    requires
        json_tree(*v) is Record,
    ensures
        match r {
            Some(m) => field(json_tree(*v)->Record_0, key@) == Some(json_tree(*m)),
            None => field(json_tree(*v)->Record_0, key@) is None,
        },
{
    match member(v, key) {
        Some(m) => if is_null(m) {
            None
        } else {
            Some(m)
        },
        None => None,
    }
}

/// Reads an optional unsigned member of an object.
pub(crate) fn read_number(v: &IValue, key: &str) -> (r: Result<Option<u64>, ()>)
    requires
        json_tree(*v) is Record,
    ensures
        match optional_number(json_tree(*v)->Record_0, key@) {
            Some(n) => r == Ok::<Option<u64>, ()>(n),
            None => r is Err,
        },
{
    match present(v, key) {
        None => Ok(None),
        Some(m) => match to_u64(m) {
            Some(n) => Ok(Some(n)),
            None => Err(()),
        },
    }
}

/// Reads an optional text member of an object.
pub(crate) fn read_text(v: &IValue, key: &str) -> (r: Result<Option<String>, ()>)
    requires
        json_tree(*v) is Record,
    ensures
        match optional_text(json_tree(*v)->Record_0, key@) {
            Some(Some(s)) => r matches Ok(Some(t)) && t@ == s,
            Some(None) => r matches Ok(None),
            None => r is Err,
        },
{
    match present(v, key) {
        None => Ok(None),
        Some(m) => match to_text(m) {
            Some(s) => Ok(Some(s)),
            None => Err(()),
        },
    }
}

/// Reads a two-item array of unsigned numbers.
pub(crate) fn read_pair(v: &IValue) -> (r: Option<(u64, u64)>)
    ensures
        r == pair_of(json_tree(*v)),
{
    match to_items(v) {
        None => None,
        Some(items) => {
            if items.len() != 2 {
                None
            } else {
                match (to_u64(&items[0]), to_u64(&items[1])) {
                    (Some(a), Some(b)) => Some((a, b)),
                    _ => None,
                }
            }
        },
    }
}

/// Reads an optional pair member of an object.
pub(crate) fn read_optional_pair(v: &IValue, key: &str) -> (r: Result<Option<(u64, u64)>, ()>)
    requires
        json_tree(*v) is Record,
    ensures
        match optional_pair(json_tree(*v)->Record_0, key@) {
            Some(p) => r == Ok::<Option<(u64, u64)>, ()>(p),
            None => r is Err,
        },
{
    match present(v, key) {
        None => Ok(None),
        Some(m) => match read_pair(m) {
            Some(p) => Ok(Some(p)),
            None => Err(()),
        },
    }
}

} // verus!
