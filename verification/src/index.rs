//! The two hash indexes of the library: authors by their identifier and
//! document sections by their title. Both are `FxHashMap`s; what they hold
//! is stated through [`author_entries`] and [`section_entries`].

use crate::common::{Section, SectionView};
use fxhash::FxHashMap;
use vstd::prelude::*;

verus! {

/// Declares `fxhash::FxHasher`, the hasher of both indexes. Nothing is
/// claimed of it.
#[verifier::external_type_specification]
#[verifier::external_body]
pub struct ExFxHasher(fxhash::FxHasher);

/// Declares `core::hash::BuildHasherDefault`, through which an `FxHashMap`
/// makes its hashers. Nothing is claimed of it.
#[verifier::external_type_specification]
#[verifier::external_body]
#[verifier::reject_recursive_types(H)]
pub struct ExBuildHasherDefault<H>(core::hash::BuildHasherDefault<H>);

/// The entries of an author index: for each source identifier the
/// identifier in the destination store.
pub uninterp spec fn author_entries(index: FxHashMap<String, String>) -> Map<Seq<char>, Seq<char>>;

/// The entries of a section index: for each title the section stored under it.
pub uninterp spec fn section_entries(index: FxHashMap<String, Section>) -> Map<
    Seq<char>,
    SectionView,
>;

/// Calls `FxHashMap::default`, which makes a map without entries.
#[verifier::external_body]
pub(crate) fn authors_new() -> (index: FxHashMap<String, String>)
    ensures
        author_entries(index) =~= (Map::<Seq<char>, Seq<char>>::empty()),
{
    FxHashMap::default()
}

/// Calls `HashMap::insert`: afterwards the key maps to the value, whether or
/// not it was present before, and every other entry is as it was.
#[verifier::external_body]
pub(crate) fn authors_insert(index: &mut FxHashMap<String, String>, key: String, value: String)
    ensures
        author_entries(*final(index)) == author_entries(*old(index)).insert(key@, value@),
{
    index.insert(key, value);
}

/// Calls `HashMap::contains_key`: whether the map has an entry for the key.
#[verifier::external_body]
pub(crate) fn authors_contains(index: &FxHashMap<String, String>, key: &str) -> (found: bool)
    ensures
        found == author_entries(*index).contains_key(key@),
{
    index.contains_key(key)
}

/// Calls `HashMap::get` and copies what it found: the value stored under the
/// key, or `None` where the map has no entry for it.
#[verifier::external_body]
pub(crate) fn authors_get(index: &FxHashMap<String, String>, key: &str) -> (found: Option<String>)
    ensures
        found is Some == author_entries(*index).contains_key(key@),
        found is Some ==> found->0@ == author_entries(*index)[key@],
{
    index.get(key).cloned()
}

/// Calls `FxHashMap::default`, which makes a map without entries.
#[verifier::external_body]
pub(crate) fn sections_new() -> (index: FxHashMap<String, Section>)
    ensures
        section_entries(index) =~= (Map::<Seq<char>, SectionView>::empty()),
{
    FxHashMap::default()
}

/// Calls `HashMap::insert`: afterwards the key maps to the value, whether or
/// not it was present before, and every other entry is as it was.
#[verifier::external_body]
pub(crate) fn sections_insert(index: &mut FxHashMap<String, Section>, key: String, value: Section)
    ensures
        section_entries(*final(index)) == section_entries(*old(index)).insert(key@, value@),
{
    index.insert(key, value);
}

/// Calls `HashMap::get`: the value stored under the key, or `None` where the
/// map has no entry for it.
#[verifier::external_body]
pub(crate) fn sections_get<'a>(index: &'a FxHashMap<String, Section>, key: &str) -> (found: Option<
    &'a Section,
>)
    ensures
        found is Some == section_entries(*index).contains_key(key@),
        found is Some ==> found->0@ == section_entries(*index)[key@],
{
    index.get(key)
}

/// Calls `HashMap::is_empty`: whether the map has no entry at all.
#[verifier::external_body]
pub(crate) fn sections_is_empty(index: &FxHashMap<String, Section>) -> (empty: bool)
    ensures
        empty == (forall|key: Seq<char>| !section_entries(*index).contains_key(key)),
{
    index.is_empty()
}

/// The titles of the items of a walk, in the order of the walk.
pub open spec fn item_keys(items: Seq<(String, Section)>) -> Seq<Seq<char>> {
    Seq::new(items.len(), |i: int| items[i].0@)
}

/// The sections of the items of a walk, in the order of the walk.
pub open spec fn item_values(items: Seq<(String, Section)>) -> Seq<SectionView> {
    Seq::new(items.len(), |i: int| items[i].1@)
}

/// Whether `keys` and `values` list every entry of `entries` exactly once,
/// in any order.
pub open spec fn enumerates(
    keys: Seq<Seq<char>>,
    values: Seq<SectionView>,
    entries: Map<Seq<char>, SectionView>,
) -> bool {
    &&& keys.len() == values.len()
    &&& forall|i: int, j: int| 0 <= i < j < keys.len() ==> keys[i] != keys[j]
    &&& forall|i: int| 0 <= i < keys.len() ==> entries.contains_pair(#[trigger] keys[i], values[i])
    &&& forall|key: Seq<char>| #[trigger]
        entries.contains_key(key) ==> exists|i: int| 0 <= i < keys.len() && keys[i] == key
}

/// Calls `HashMap::iter` and copies each entry it yields. The walk visits
/// every entry once; its order is left open.
#[verifier::external_body]
pub(crate) fn sections_items(index: &FxHashMap<String, Section>) -> (items: Vec<(String, Section)>)
    ensures
        enumerates(item_keys(items@), item_values(items@), section_entries(*index)),
{
    index.iter().map(|(key, section)| (key.clone(), section.clone())).collect()
}

/// Calls `HashMap::clone`: the copy holds the same entries.
#[verifier::external_body]
pub(crate) fn sections_clone(index: &FxHashMap<String, Section>) -> (copy: FxHashMap<String, Section>)
    ensures
        section_entries(copy) == section_entries(*index),
{
    index.clone()
}

} // verus!
