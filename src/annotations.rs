//! The free-form `key -> value` annotations of an activity's metadata, held in
//! abi_stable's `RHashMap` so that they can cross the module boundary as they
//! are.
use abi_stable::std_types::{RHashMap, RString};
use vstd::prelude::*;

verus! {

#[verifier::external_type_specification]
#[verifier::external_body]
pub struct ExRString(RString);

#[verifier::external_type_specification]
#[verifier::external_body]
#[verifier::reject_recursive_types(K)]
#[verifier::reject_recursive_types(V)]
#[verifier::reject_recursive_types(S)]
pub struct ExRHashMap<K, V, S>(RHashMap<K, V, S>);

/// Annotation map: string keys to string values.
pub type Annotations = RHashMap<RString, RString>;

/// The entries of an annotation map, keys and values as characters.
pub uninterp spec fn annotation_entries(m: Annotations) -> Map<Seq<char>, Seq<char>>;

/// The entries of a map that holds none.
pub open spec fn no_entries() -> Map<Seq<char>, Seq<char>> {
    Map::empty()
}

/// Relies on `RHashMap::new`: the new map holds no entry.
#[verifier::external_body]
pub(crate) fn empty_annotations() -> (r: Annotations)
    ensures
        annotation_entries(r) == no_entries(),
{
    RHashMap::new()
}

/// Relies on `RHashMap::insert`: the key now maps to the value, every other
/// entry stays as it was.
#[verifier::external_body]
pub(crate) fn insert_annotation(m: &mut Annotations, key: String, value: String)
    ensures
        annotation_entries(*final(m)) == annotation_entries(*old(m)).insert(key@, value@),
{
    m.insert(key.into(), value.into());
}

/// Relies on `RHashMap::get`: the value stored under the key, if any.
#[verifier::external_body]
pub(crate) fn get_annotation(m: &Annotations, key: &str) -> (r: Option<String>)
    ensures
        match r {
            Some(v) => annotation_entries(*m).contains_key(key@) && annotation_entries(
                *m,
            )[key@] == v@,
            None => !annotation_entries(*m).contains_key(key@),
        },
{
    m.get(key).map(|v| v.to_string())
}

/// Relies on `RHashMap`'s `Clone`: the copy holds the same entries.
#[verifier::external_body]
pub(crate) fn copy_annotations(m: &Annotations) -> (r: Annotations)
    ensures
        annotation_entries(r) == annotation_entries(*m),
{
    m.clone()
}

/// Relies on `RHashMap`'s `PartialEq`: equal lengths and, for each key of the
/// first, an equal value under it in the second.
#[verifier::external_body]
pub(crate) fn same_annotations(a: &Annotations, b: &Annotations) -> (r: bool)
    ensures
        r == (annotation_entries(*a) == annotation_entries(*b)),
{
    a == b
}

} // verus!
