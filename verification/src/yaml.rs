//! The boundary to `serde_yaml`. The crate builds `serde_yaml` values and
//! has them written out as text; Verus sees neither the values nor the
//! writer. This module gives the values a mathematical model, `Yaml`, and
//! states of each call into `serde_yaml` what it does to that model. Those
//! statements are taken on trust from the outside crate's source; everything
//! else in the crate is proved from them.

use crate::encoding::is_small_document;
use vstd::prelude::*;

verus! {

/// A YAML node as mathematics. A mapping is the sequence of its entries, in
/// the order in which they are written. `Other` stands for the nodes that
/// this crate never builds: floats and tagged values.
pub enum Yaml {
    Null,
    Boolean(bool),
    Integer(int),
    Text(Seq<char>),
    Sequence(Seq<Yaml>),
    Mapping(Seq<(Yaml, Yaml)>),
    Other,
}

/// `serde_yaml::Value`, a YAML node. Opaque: see `value_of`.
#[verifier::external_type_specification]
#[verifier::external_body]
pub struct ExValue(serde_yaml::Value);

/// `serde_yaml::Mapping`, a YAML mapping that keeps its entries in the order
/// of their insertion. Opaque: see `entries_of`.
#[verifier::external_type_specification]
#[verifier::external_body]
pub struct ExMapping(serde_yaml::Mapping);

/// `serde_yaml::Error`, what the writer gives when it fails. Opaque.
#[verifier::external_type_specification]
#[verifier::external_body]
pub struct ExError(serde_yaml::Error);

/// The node that a `serde_yaml::Value` holds. `Null`, `Bool`, `String`,
/// `Sequence` and `Mapping` stand for the variant of `Yaml` of the same
/// meaning, a `Number` that holds an integer for `Integer`, and a `Number`
/// that holds a float or a `Tagged` value for `Other`.
pub uninterp spec fn value_of(value: serde_yaml::Value) -> Yaml;

/// The entries of a `serde_yaml::Mapping`, each key with its value, in the
/// order in which the mapping holds them.
pub uninterp spec fn entries_of(mapping: serde_yaml::Mapping) -> Seq<(Yaml, Yaml)>;

/// The text that `serde_yaml::to_string` writes for a mapping with the given
/// entries, or `None` where it reports an error. The writer reads nothing
/// but the mapping, so the same entries give the same text. It is asked of
/// the entries of documents only.
pub uninterp spec fn yaml_text(entries: Seq<(Yaml, Yaml)>) -> Option<Seq<char>>;

/// Some entry has the key.
pub open spec fn has_key(entries: Seq<(Yaml, Yaml)>, key: Yaml) -> bool {
    exists|i: int| 0 <= i < entries.len() && (#[trigger] entries[i]).0 == key
}

/// The entries after `key` is set to `value`: a key that is there keeps its
/// place and gets the value; a new key goes to the end.
pub open spec fn upsert(entries: Seq<(Yaml, Yaml)>, key: Yaml, value: Yaml) -> Seq<(Yaml, Yaml)> {
    if has_key(entries, key) {
        entries.map_values(
            |entry: (Yaml, Yaml)|
                if entry.0 == key {
                    (entry.0, value)
                } else {
                    entry
                },
        )
    } else {
        entries.push((key, value))
    }
}

/// `serde_yaml::Mapping::new`: a mapping without entries.
pub assume_specification[ serde_yaml::Mapping::new ]() -> (mapping: serde_yaml::Mapping)
    ensures
        entries_of(mapping) == Seq::<(Yaml, Yaml)>::empty(),
;

/// `serde_yaml::Value::from` on a `&str`: the `Value::String` that holds a
/// copy of the text.
#[verifier::external_body]
pub(crate) fn text_value(text: &str) -> (value: serde_yaml::Value)
    ensures
        value_of(value) == Yaml::Text(text@),
{
    serde_yaml::Value::from(text)
}

/// `serde_yaml::Value::from` on a `u64`: the `Value::Number` that holds the
/// integer.
#[verifier::external_body]
pub(crate) fn integer_value(number: u64) -> (value: serde_yaml::Value)
    ensures
        value_of(value) == Yaml::Integer(number as int),
{
    serde_yaml::Value::from(number)
}

/// `serde_yaml::Value::from` on a `bool`: the `Value::Bool` that holds it.
#[verifier::external_body]
pub(crate) fn boolean_value(flag: bool) -> (value: serde_yaml::Value)
    ensures
        value_of(value) == Yaml::Boolean(flag),
{
    serde_yaml::Value::from(flag)
}

/// `serde_yaml::Value::Sequence`: the sequence node that holds the given
/// nodes in their order.
#[verifier::external_body]
pub(crate) fn sequence_value(items: Vec<serde_yaml::Value>) -> (value: serde_yaml::Value)
    ensures
        value_of(value) == Yaml::Sequence(
            items@.map_values(|item: serde_yaml::Value| value_of(item)),
        ),
{
    serde_yaml::Value::Sequence(items)
}

/// `serde_yaml::Value::from` on a `Mapping`: the mapping node with the
/// mapping's entries.
#[verifier::external_body]
pub(crate) fn mapping_value(mapping: serde_yaml::Mapping) -> (value: serde_yaml::Value)
    ensures
        value_of(value) == Yaml::Mapping(entries_of(mapping)),
{
    serde_yaml::Value::from(mapping)
}

/// `serde_yaml::Mapping::insert` with a text as the key. As the `IndexMap`
/// underneath documents it: where the mapping has the key, the entry keeps
/// its place and takes the new value; where it has not, the entry is added
/// last. The value that was there before is dropped.
#[verifier::external_body]
pub(crate) fn insert_entry(mapping: &mut serde_yaml::Mapping, key: &str, value: serde_yaml::Value)
    ensures
        entries_of(*final(mapping)) == upsert(
            entries_of(*old(mapping)),
            Yaml::Text(key@),
            value_of(value),
        ),
{
    mapping.insert(serde_yaml::Value::from(key), value);
}

/// `serde_yaml::to_string` on the mapping of a challenge document: the
/// document as YAML text, or the writer's error. The contract only names
/// the outcome. The writer descends into the nodes by recursion, and counts
/// the bytes of a scalar, the columns of a line and the lines of its text in
/// signed 32-bit numbers. So it is given documents only, which nest nine
/// levels deep at most (`plain::law_document_is_plain`), and only those of
/// at most `MAX_DOCUMENT_SIZE`.
#[verifier::external_body]
pub(crate) fn render(mapping: &serde_yaml::Mapping) -> (outcome: Result<
    String,
    serde_yaml::Error,
>)
    requires
        is_small_document(entries_of(*mapping)),
    ensures
        match outcome {
            Ok(text) => yaml_text(entries_of(*mapping)) == Some(text@),
            Err(_) => yaml_text(entries_of(*mapping)) is None,
        },
{
    serde_yaml::to_string(mapping)
}

} // verus!
