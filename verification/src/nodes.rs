//! Building YAML nodes: verified steps on top of the calls into
//! `serde_yaml`.

use crate::yaml::{
    entries_of, has_key, insert_entry, mapping_value, sequence_value, value_of, Yaml,
};
use vstd::prelude::*;

verus! {

/// The entry that is written as `key: value`.
pub open spec fn entry(key: Seq<char>, value: Yaml) -> (Yaml, Yaml) {
    (Yaml::Text(key), value)
}

/// The entry `key: value` where there is a value, no entry where there is
/// none.
pub open spec fn optional_entry(key: Seq<char>, value: Option<Yaml>) -> Seq<(Yaml, Yaml)> {
    match value {
        Some(value) => seq![entry(key, value)],
        None => Seq::empty(),
    }
}

/// No entry has the key as its text.
#[verifier::opaque]
pub open spec fn lacks(entries: Seq<(Yaml, Yaml)>, key: Seq<char>) -> bool {
    !has_key(entries, Yaml::Text(key))
}

/// A mapping without entries.
pub(crate) fn new_mapping() -> (mapping: serde_yaml::Mapping)
    ensures
        entries_of(mapping) == Seq::<(Yaml, Yaml)>::empty(),
        forall|key: Seq<char>| lacks(#[trigger] entries_of(mapping), key),
{
    reveal(lacks);
    serde_yaml::Mapping::new()
}

/// Adds `key: value` to a mapping that does not have the key yet. The keys
/// that the mapping lacked before, it still lacks, but for `key`.
pub(crate) fn put(mapping: &mut serde_yaml::Mapping, key: &str, value: serde_yaml::Value)
    requires
        lacks(entries_of(*old(mapping)), key@),
    ensures
        entries_of(*final(mapping)) == entries_of(*old(mapping)).push(
            entry(key@, value_of(value)),
        ),
        forall|other: Seq<char>|
            other != key@ && lacks(entries_of(*old(mapping)), other) ==> lacks(
                #[trigger] entries_of(*final(mapping)),
                other,
            ),
{
    let ghost before = entries_of(*mapping);
    proof {
        reveal(lacks);
    }
    insert_entry(mapping, key, value);
    proof {
        let after = entries_of(*mapping);
        assert forall|other: Seq<char>| other != key@ && lacks(before, other) implies lacks(
            after,
            other,
        ) by {
            assert forall|i: int| 0 <= i < after.len() implies (#[trigger] after[i]).0
                != Yaml::Text(other) by {
                if i < before.len() {
                    assert(after[i] == before[i]);
                }
            }
        }
    }
}

/// The node of an optional value, as mathematics.
pub open spec fn node_of(value: Option<serde_yaml::Value>) -> Option<Yaml> {
    match value {
        Some(value) => Some(value_of(value)),
        None => None,
    }
}

/// Adds `key: value` where there is a value, and nothing where there is
/// none.
pub(crate) fn put_optional(
    mapping: &mut serde_yaml::Mapping,
    key: &str,
    value: Option<serde_yaml::Value>,
)
    requires
        lacks(entries_of(*old(mapping)), key@),
    ensures
        entries_of(*final(mapping)) == entries_of(*old(mapping)) + optional_entry(
            key@,
            node_of(value),
        ),
        forall|other: Seq<char>|
            other != key@ && lacks(entries_of(*old(mapping)), other) ==> lacks(
                #[trigger] entries_of(*final(mapping)),
                other,
            ),
{
    let ghost before = entries_of(*mapping);
    let ghost node = node_of(value);
    if let Some(value) = value {
        put(mapping, key, value);
    }
    assert(entries_of(*mapping) =~= before + optional_entry(key@, node));
}

/// The mapping node that holds one entry.
pub(crate) fn wrap(key: &str, value: serde_yaml::Value) -> (node: serde_yaml::Value)
    ensures
        value_of(node) == Yaml::Mapping(seq![entry(key@, value_of(value))]),
{
    let mut entries = new_mapping();
    put(&mut entries, key, value);
    mapping_value(entries)
}

/// The sequence node that holds one item.
pub(crate) fn single_item(item: serde_yaml::Value) -> (node: serde_yaml::Value)
    ensures
        value_of(node) == Yaml::Sequence(seq![value_of(item)]),
{
    let ghost inner = value_of(item);
    let mut items: Vec<serde_yaml::Value> = Vec::new();
    items.push(item);
    let node = sequence_value(items);
    proof {
        let built = value_of(node)->Sequence_0;
        assert(built =~= seq![inner]);
    }
    node
}

} // verus!
