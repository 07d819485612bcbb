//! Structured manifests: the tree that a TOML or JSON document denotes, as
//! far as dependency declarations need it.

use crate::text::{str_is, to_chars};
use vstd::prelude::*;

verus! {

/// A value of a structured document. Numbers, booleans, dates and nulls
/// carry nothing that a dependency declaration reads and are all `Other`.
#[derive(Debug)]
pub enum ManifestValue {
    /// A string.
    Text(String),
    /// A table of keyed values, in the order in which the document's
    /// decoder hands them out.
    Table(Vec<(String, ManifestValue)>),
    /// An array of values, in document order.
    List(Vec<ManifestValue>),
    /// Any other value.
    Other,
}

/// `toml::Value`, the tree that the TOML decoder builds.
#[verifier::external_type_specification]
#[verifier::external_body]
pub struct ExTomlValue(toml::Value);

/// `serde_json::Value`, the tree that the JSON decoder builds.
#[verifier::external_type_specification]
#[verifier::external_body]
pub struct ExJsonValue(serde_json::Value);

/// What a `toml::Value` holds, as a `ManifestValue`.
pub uninterp spec fn toml_tree(value: toml::Value) -> ManifestValue;

/// What a `serde_json::Value` holds, as a `ManifestValue`.
pub uninterp spec fn json_tree(value: serde_json::Value) -> ManifestValue;

/// What `toml::from_str` makes of a text: the document's tree, or the
/// decoder's message where the text is no TOML document.
pub uninterp spec fn toml_document(content: Seq<char>) -> Result<ManifestValue, String>;

/// What `serde_json::from_str` makes of a text: the document's tree, or the
/// decoder's message where the text is no JSON document.
pub uninterp spec fn json_document(content: Seq<char>) -> Result<ManifestValue, String>;

/// Trusted: copies a `toml::Value` out, variant by variant: a string as
/// `Text`, a table as `Table` with its entries in the order of
/// `toml::Table`'s iterator, an array as `List`, anything else as `Other`.
#[verifier::external_body]
fn from_toml_value(value: &toml::Value) -> (tree: ManifestValue)
    ensures
        tree == toml_tree(*value),
{
    match value {
        toml::Value::String(s) => ManifestValue::Text(s.clone()),
        toml::Value::Table(t) => ManifestValue::Table(
            t.iter().map(|(k, v)| (k.clone(), from_toml_value(v))).collect(),
        ),
        toml::Value::Array(a) => ManifestValue::List(a.iter().map(from_toml_value).collect()),
        toml::Value::Integer(_) => ManifestValue::Other,
        toml::Value::Float(_) => ManifestValue::Other,
        toml::Value::Boolean(_) => ManifestValue::Other,
        toml::Value::Datetime(_) => ManifestValue::Other,
    }
}

/// Trusted: copies a `serde_json::Value` out, variant by variant: a string
/// as `Text`, an object as `Table` with its entries in the order of
/// `serde_json::Map`'s iterator, an array as `List`, anything else as
/// `Other`.
#[verifier::external_body]
fn from_json_value(value: &serde_json::Value) -> (tree: ManifestValue)
    ensures
        tree == json_tree(*value),
{
    match value {
        serde_json::Value::String(s) => ManifestValue::Text(s.clone()),
        serde_json::Value::Object(o) => ManifestValue::Table(
            o.iter().map(|(k, v)| (k.clone(), from_json_value(v))).collect(),
        ),
        serde_json::Value::Array(a) => ManifestValue::List(a.iter().map(from_json_value).collect()),
        serde_json::Value::Null => ManifestValue::Other,
        serde_json::Value::Bool(_) => ManifestValue::Other,
        serde_json::Value::Number(_) => ManifestValue::Other,
    }
}

/// Trusted: decodes a TOML document with `toml::from_str` into a
/// `toml::Value`. The outcome depends on the text alone; a failure carries
/// the message of `toml::de::Error`.
#[verifier::external_body]
fn decode_toml(content: &str) -> (r: Result<toml::Value, String>)
    ensures
        match r {
            Ok(value) => toml_document(content@) == Ok::<ManifestValue, String>(toml_tree(value)),
            Err(message) => toml_document(content@) == Err::<ManifestValue, String>(message),
        },
{
    toml::from_str::<toml::Value>(content).map_err(|e| e.to_string())
}

/// Trusted: decodes a JSON document with `serde_json::from_str` into a
/// `serde_json::Value`. The outcome depends on the text alone; a failure
/// carries the message of `serde_json::Error`.
#[verifier::external_body]
fn decode_json(content: &str) -> (r: Result<serde_json::Value, String>)
    ensures
        match r {
            Ok(value) => json_document(content@) == Ok::<ManifestValue, String>(json_tree(value)),
            Err(message) => json_document(content@) == Err::<ManifestValue, String>(message),
        },
{
    serde_json::from_str::<serde_json::Value>(content).map_err(|e| e.to_string())
}

/// Decodes a TOML document.
pub fn parse_toml(content: &str) -> (r: Result<ManifestValue, String>)
    ensures
        r == toml_document(content@),
{
    match decode_toml(content) {
        Ok(value) => Ok(from_toml_value(&value)),
        Err(message) => Err(message),
    }
}

/// Decodes a JSON document.
pub fn parse_json(content: &str) -> (r: Result<ManifestValue, String>)
    ensures
        r == json_document(content@),
{
    match decode_json(content) {
        Ok(value) => Ok(from_json_value(&value)),
        Err(message) => Err(message),
    }
}

/// The position of the first entry with the given key, or the number of
/// entries where there is none.
pub open spec fn position_of_key(entries: Seq<(String, ManifestValue)>, key: Seq<char>) -> int
    decreases entries.len(),
{
    if entries.len() == 0 {
        0
    } else if entries[0].0@ == key {
        0
    } else {
        1 + position_of_key(entries.drop_first(), key)
    }
}

/// `position_of_key` is the least position whose key is `key`.
pub proof fn lemma_position_of_key(entries: Seq<(String, ManifestValue)>, key: Seq<char>)
    ensures
        0 <= position_of_key(entries, key) <= entries.len(),
        forall|k: int| 0 <= k < position_of_key(entries, key) ==> entries[k].0@ != key,
        position_of_key(entries, key) < entries.len() ==> entries[position_of_key(
            entries,
            key,
        )].0@ == key,
    decreases entries.len(),
{
    if entries.len() > 0 && entries[0].0@ != key {
        lemma_position_of_key(entries.drop_first(), key);
        assert forall|k: int| 0 <= k < position_of_key(entries, key) implies entries[k].0@
            != key by {
            if k > 0 {
                assert(entries[k] == entries.drop_first()[k - 1]);
            }
        }
    }
}

impl ManifestValue {
    /// The value under `key`, where this value is a table that has the key.
    pub open spec fn entry(self, key: Seq<char>) -> Option<ManifestValue> {
        match self {
            ManifestValue::Table(entries) => {
                let at = position_of_key(entries@, key);
                if 0 <= at < entries@.len() {
                    Some(entries@[at].1)
                } else {
                    None
                }
            },
            _ => None,
        }
    }

    /// The entries of this value, where it is a table.
    pub open spec fn table(self) -> Option<Seq<(String, ManifestValue)>> {
        match self {
            ManifestValue::Table(entries) => Some(entries@),
            _ => None,
        }
    }

    /// The text of this value, where it is a string.
    pub open spec fn text(self) -> Option<Seq<char>> {
        match self {
            ManifestValue::Text(s) => Some(s@),
            _ => None,
        }
    }

    /// The items of this value, where it is an array.
    pub open spec fn items(self) -> Option<Seq<ManifestValue>> {
        match self {
            ManifestValue::List(items) => Some(items@),
            _ => None,
        }
    }

    /// Looks a key up in a table. Any other value has no keys.
    pub fn get(&self, key: &str) -> (r: Option<&ManifestValue>)
        ensures
            match r {
                Some(v) => self.entry(key@) == Some(*v),
                None => self.entry(key@) is None,
            },
    {
        match self {
            ManifestValue::Table(entries) => {
                let wanted = to_chars(key);
                let mut i: usize = 0;
                while i < entries.len()
                    invariant
                        i <= entries.len(),
                        wanted@ == key@,
                        *self == ManifestValue::Table(*entries),
                        forall|k: int| 0 <= k < i ==> entries@[k].0@ != key@,
                    decreases entries.len() - i,
                {
                    if str_is(entries[i].0.as_str(), &wanted) {
                        proof {
                            lemma_position_of_key(entries@, key@);
                            let at = position_of_key(entries@, key@);
                            if at > i {
                                assert(entries@[i as int].0@ != key@);
                            }
                            if at < i {
                                assert(entries@[at].0@ != key@);
                            }
                        }
                        return Some(&entries[i].1);
                    }
                    i += 1;
                }
                proof {
                    lemma_position_of_key(entries@, key@);
                    let at = position_of_key(entries@, key@);
                    if at < entries@.len() {
                        assert(entries@[at].0@ != key@);
                    }
                }
                None
            },
            _ => None,
        }
    }

    /// The entries, where this value is a table.
    pub fn as_table(&self) -> (r: Option<&Vec<(String, ManifestValue)>>)
        ensures
            match r {
                Some(entries) => self.table() == Some(entries@),
                None => self.table() is None,
            },
    {
        match self {
            ManifestValue::Table(entries) => Some(entries),
            _ => None,
        }
    }

    /// The string, where this value is one.
    pub fn as_str(&self) -> (r: Option<&str>)
        ensures
            match r {
                Some(s) => self.text() == Some(s@),
                None => self.text() is None,
            },
    {
        match self {
            ManifestValue::Text(s) => Some(s.as_str()),
            _ => None,
        }
    }

    /// The items, where this value is an array.
    pub fn as_array(&self) -> (r: Option<&Vec<ManifestValue>>)
        ensures
            match r {
                Some(items) => self.items() == Some(items@),
                None => self.items() is None,
            },
    {
        match self {
            ManifestValue::List(items) => Some(items),
            _ => None,
        }
    }
}

/// The value that an optional reference points to.
pub open spec fn pointee(value: Option<&ManifestValue>) -> Option<ManifestValue> {
    match value {
        Some(v) => Some(*v),
        None => None,
    }
}

/// The value under `key` of a value that may be absent.
pub open spec fn entry_of(value: Option<ManifestValue>, key: Seq<char>) -> Option<ManifestValue> {
    match value {
        Some(v) => v.entry(key),
        None => None,
    }
}

/// Looks a key up in a value that may be absent.
pub fn descend<'a>(value: Option<&'a ManifestValue>, key: &str) -> (r: Option<&'a ManifestValue>)
    ensures
        pointee(r) == entry_of(pointee(value), key@),
{
    match value {
        Some(v) => v.get(key),
        None => None,
    }
}

} // verus!
