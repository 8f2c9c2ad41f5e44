//! The ordered map from service index to container name, kept in an
//! `indexmap::IndexMap` and described to the verifier through a view of its
//! contents.
use indexmap::IndexMap;
use vstd::prelude::*;

verus! {

/// `indexmap::IndexMap`, held opaquely; what a map from service index to
/// container name holds is given by `name_entries`.
#[verifier::external_type_specification]
#[verifier::external_body]
#[verifier::reject_recursive_types(K)]
#[verifier::reject_recursive_types(V)]
#[verifier::reject_recursive_types(S)]
pub struct ExIndexMap<K, V, S>(IndexMap<K, V, S>);

/// The key/value pairs held by a map from service index to container name.
pub uninterp spec fn name_entries(m: IndexMap<usize, String>) -> Map<usize, Seq<char>>;

/// The map with no entries.
pub open spec fn no_names() -> Map<usize, Seq<char>> {
    Map::empty()
}

/// Relies on `IndexMap::new`: a new map holds no entries.
#[verifier::external_body]
pub(crate) fn name_map_new() -> (r: IndexMap<usize, String>)
    ensures
        name_entries(r) == no_names(),
{
    IndexMap::new()
}

/// Relies on `IndexMap::insert`: the key is mapped to the value, replacing
/// any earlier value, and every other entry stays.
#[verifier::external_body]
pub(crate) fn name_map_insert(m: &mut IndexMap<usize, String>, k: usize, v: String)
    ensures
        name_entries(*final(m)) == name_entries(*old(m)).insert(k, v@),
{
    m.insert(k, v);
}

/// Relies on `IndexMap::get`: the value stored under the key, if any.
#[verifier::external_body]
pub(crate) fn name_map_get(m: &IndexMap<usize, String>, k: usize) -> (r: Option<&String>)
    ensures
        r.is_some() <==> name_entries(*m).contains_key(k),
        r.is_some() ==> r.unwrap()@ == name_entries(*m)[k],
{
    m.get(&k)
}

/// Relies on `IndexMap::shift_remove`: the entry under the key is removed
/// and every other entry stays.
#[verifier::external_body]
pub(crate) fn name_map_remove(m: &mut IndexMap<usize, String>, k: usize)
    ensures
        name_entries(*final(m)) == name_entries(*old(m)).remove(k),
{
    m.shift_remove(&k);
}

/// Relies on `IndexMap`'s `Clone`: the copy holds the same entries.
#[verifier::external_body]
pub(crate) fn name_map_clone(m: &IndexMap<usize, String>) -> (r: IndexMap<usize, String>)
    ensures
        name_entries(r) == name_entries(*m),
{
    m.clone()
}

} // verus!
