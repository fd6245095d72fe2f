//! YAML documents: mappings whose entries are read and changed by key.

use serde_yaml_ng::{Mapping, Value};
use vstd::prelude::*;

verus! {

/// Declares `serde_yaml_ng::Mapping`, a YAML mapping that keeps its order.
#[verifier::external_type_specification]
#[verifier::external_body]
pub struct ExMapping(serde_yaml_ng::Mapping);

/// Declares `serde_yaml_ng::Value`, any YAML value.
#[verifier::external_type_specification]
#[verifier::external_body]
pub struct ExValue(serde_yaml_ng::Value);

/// What a YAML value is, with its tag left aside.
pub enum Node {
    Text(Seq<char>),
    Integer(i64),
    Flag(bool),
    Table(Map<Seq<char>, Node>),
    /// Any other value: a list, a null, a number that is no 64-bit integer.
    Other(Value),
}

/// The entries of a mapping under text keys.
pub uninterp spec fn entries(document: Mapping) -> Map<Seq<char>, Node>;

/// The entries of the mapping that a text stands for, or the message why it
/// stands for none.
pub uninterp spec fn parsed(text: Seq<char>) -> Result<Map<Seq<char>, Node>, Seq<char>>;

/// The text of a mapping, or the message why it has none.
pub uninterp spec fn rendered(document: Mapping) -> Result<Seq<char>, Seq<char>>;

/// An entry that can be written.
#[derive(Debug, PartialEq, Eq)]
pub enum Scalar {
    Text(String),
    Integer(i64),
    Flag(bool),
}

impl Scalar {
    /// What the entry is once it has been written.
    pub open spec fn node(self) -> Node {
        match self {
            Scalar::Text(text) => Node::Text(text@),
            Scalar::Integer(value) => Node::Integer(value),
            Scalar::Flag(value) => Node::Flag(value),
        }
    }
}

/// An entry that was looked up.
#[derive(Debug, PartialEq, Eq)]
pub enum Field {
    Missing,
    Text(String),
    Integer(i64),
    Flag(bool),
    Table,
    Other,
}

impl Field {
    /// Whether this is what a lookup of `key` in `map` finds.
    pub open spec fn found(self, map: Map<Seq<char>, Node>, key: Seq<char>) -> bool {
        match self {
            Field::Missing => !map.dom().contains(key),
            Field::Text(text) => map.dom().contains(key) && map[key] == Node::Text(text@),
            Field::Integer(value) => map.dom().contains(key) && map[key] == Node::Integer(value),
            Field::Flag(value) => map.dom().contains(key) && map[key] == Node::Flag(value),
            Field::Table => map.dom().contains(key) && map[key] is Table,
            Field::Other => map.dom().contains(key) && map[key] is Other,
        }
    }
}

/// Wraps `serde_yaml_ng::from_str` for mappings. What a text stands for is left
/// to the name [`parsed`].
#[verifier::external_body]
pub(crate) fn parse(text: &str) -> (res: Result<Mapping, String>)
    ensures
        match res {
            Ok(document) => parsed(text@) == Ok::<Map<Seq<char>, Node>, Seq<char>>(
                entries(document),
            ),
            Err(message) => parsed(text@) == Err::<Map<Seq<char>, Node>, Seq<char>>(message@),
        },
{
    serde_yaml_ng::from_str::<Mapping>(text).map_err(|error| error.to_string())
}

/// Wraps `serde_yaml_ng::to_string` for mappings. How the text looks is left to
/// the name [`rendered`].
#[verifier::external_body]
pub(crate) fn render(document: &Mapping) -> (res: Result<String, String>)
    ensures
        match res {
            Ok(text) => rendered(*document) == Ok::<Seq<char>, Seq<char>>(text@),
            Err(message) => rendered(*document) == Err::<Seq<char>, Seq<char>>(message@),
        },
{
    serde_yaml_ng::to_string(document).map_err(|error| error.to_string())
}

/// Wraps `Mapping::get` with a text key, and `Value::as_str`, `as_i64`,
/// `as_bool` and `as_mapping`, which tell apart what was found.
#[verifier::external_body]
pub(crate) fn field(document: &Mapping, key: &str) -> (res: Field)
    ensures
        res.found(entries(*document), key@),
{
    match document.get(Value::String(key.to_owned())) {
        None => Field::Missing,
        Some(value) => match (value.as_str(), value.as_i64(), value.as_bool()) {
            (Some(text), _, _) => Field::Text(text.to_owned()),
            (None, Some(integer), _) => Field::Integer(integer),
            (None, None, Some(flag)) => Field::Flag(flag),
            (None, None, None) => match value.as_mapping() {
                Some(_) => Field::Table,
                None => Field::Other,
            },
        },
    }
}

/// Wraps `Mapping::get` with a text key, for an entry that is a mapping itself.
#[verifier::external_body]
pub(crate) fn table<'a>(document: &'a Mapping, key: &str) -> (res: Option<&'a Mapping>)
    ensures
        match res {
            Some(table) => entries(*document).dom().contains(key@) && entries(*document)[key@]
                == Node::Table(entries(*table)),
            None => !(entries(*document).dom().contains(key@) && entries(
                *document,
            )[key@] is Table),
        },
{
    document.get(Value::String(key.to_owned())).and_then(Value::as_mapping)
}

/// Wraps `Mapping::get_mut` and `Mapping::insert`, for an entry of an entry:
/// sets `inner` to `value` in the mapping under `key`, which has to be there.
#[verifier::external_body]
pub(crate) fn put_in_table(document: &mut Mapping, key: &str, inner: &str, value: bool)
    requires
        entries(*old(document)).dom().contains(key@),
        entries(*old(document))[key@] is Table,
    ensures
        entries(*final(document)) == entries(*old(document)).insert(
            key@,
            Node::Table(
                entries(*old(document))[key@]->Table_0.insert(inner@, Node::Flag(value)),
            ),
        ),
{
    let entry = document.get_mut(Value::String(key.to_owned()));
    if let Some(table) = entry.and_then(Value::as_mapping_mut) {
        table.insert(Value::String(inner.to_owned()), Value::from(value));
    }
}

/// Wraps `Mapping::insert` with a text key: the entry is replaced or added, and
/// the others stay.
#[verifier::external_body]
pub(crate) fn put(document: &mut Mapping, key: &str, value: Scalar)
    ensures
        entries(*final(document)) == entries(*old(document)).insert(key@, value.node()),
{
    let value = match value {
        Scalar::Text(text) => Value::String(text),
        Scalar::Integer(integer) => Value::from(integer),
        Scalar::Flag(flag) => Value::from(flag),
    };
    document.insert(Value::String(key.to_owned()), value);
}

/// Wraps `Mapping::remove` with a text key: the entry is gone, and the others
/// stay.
#[verifier::external_body]
pub(crate) fn remove(document: &mut Mapping, key: &str)
    ensures
        entries(*final(document)) == entries(*old(document)).remove(key@),
{
    document.remove(Value::String(key.to_owned()));
}

} // verus!
