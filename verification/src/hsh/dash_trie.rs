use crate::hsh::alg_registry::AlgRegistry;
use crate::hsh::hash_trie::{
    after_insert, has_size, holds_nothing, insert_stores, lookup, IHashTrie,
};
use crate::hsh::id::any_id::AnyID;
use crate::hsh::id::num_id::{IFacets, INumID, NumID};
use crate::hsh::obj::sub_hsh_obj::{ISubHshObj, SubHshObj};
use crate::hsh::sub_hsh_alg::{IUseSubHshAlg, SubHshAlg};
use dashmap::DashMap;
use std::sync::Arc;
use vstd::prelude::*;

verus! {

/// `dashmap::DashMap`, carried as a value that nothing looks into.
#[verifier::external_type_specification]
#[verifier::external_body]
#[verifier::reject_recursive_types(K)]
#[verifier::reject_recursive_types(V)]
#[verifier::reject_recursive_types(S)]
pub struct ExDashMap<K, V, S>(DashMap<K, V, S>);

/// What a `DashMap` of object handles holds: each handle under its key.
pub uninterp spec fn dash_entries(map: DashMap<u64, Arc<SubHshObj<AnyID>>>) -> Map<
    u64,
    Arc<SubHshObj<AnyID>>,
>;

/// `DashMap::new`: a map that holds nothing.
#[verifier::external_body]
fn dash_new() -> (map: DashMap<u64, Arc<SubHshObj<AnyID>>>)
    ensures
        holds_nothing(dash_entries(map)),
{
    DashMap::new()
}

/// `DashMap::len`: the number of entries, added up over the shards. There
/// are finitely many.
#[verifier::external_body]
fn dash_len(map: &DashMap<u64, Arc<SubHshObj<AnyID>>>) -> (len: usize)
    ensures
        has_size(dash_entries(*map), len as nat),
{
    map.len()
}

/// `DashMap::contains_key`: whether the map holds an entry under `key`.
#[verifier::external_body]
fn dash_contains_key(map: &DashMap<u64, Arc<SubHshObj<AnyID>>>, key: u64) -> (found: bool)
    ensures
        found == dash_entries(*map).contains_key(key),
{
    map.contains_key(&key)
}

/// `DashMap::insert`: puts `value` under `key` and hands back the value
/// that was there before, if there was one. The map is taken exclusively,
/// so that what it holds afterwards is what this call left.
#[verifier::external_body]
fn dash_insert(
    map: &mut DashMap<u64, Arc<SubHshObj<AnyID>>>,
    key: u64,
    value: Arc<SubHshObj<AnyID>>,
) -> (before: Option<Arc<SubHshObj<AnyID>>>)
    ensures
        dash_entries(*final(map)) == dash_entries(*old(map)).insert(key, value),
        before == lookup(dash_entries(*old(map)), key),
{
    map.insert(key, value)
}

/// `DashMap::get`, the handle under `key` cloned out of the reference that
/// the map hands out; `None` where the map holds nothing under `key`.
#[verifier::external_body]
fn dash_get(map: &DashMap<u64, Arc<SubHshObj<AnyID>>>, key: u64) -> (value: Option<
    Arc<SubHshObj<AnyID>>,
>)
    ensures
        value == lookup(dash_entries(*map), key),
{
    map.get(&key).map(|entry| entry.value().clone())
}

/// `DashMap::remove`: takes out the entry under `key` and hands back its
/// key and value, if there was one.
#[verifier::external_body]
fn dash_remove(map: &mut DashMap<u64, Arc<SubHshObj<AnyID>>>, key: u64) -> (entry: Option<
    (u64, Arc<SubHshObj<AnyID>>),
>)
    ensures
        dash_entries(*final(map)) == dash_entries(*old(map)).remove(key),
        entry == (if dash_entries(*old(map)).contains_key(key) {
            Some((key, dash_entries(*old(map))[key]))
        } else {
            None
        }),
{
    map.remove(&key)
}

/// `DashMap::clear`: takes out every entry.
#[verifier::external_body]
fn dash_clear(map: &mut DashMap<u64, Arc<SubHshObj<AnyID>>>)
    ensures
        holds_nothing(dash_entries(*final(map))),
{
    map.clear()
}

/// A store of identified objects, kept in a `DashMap` under the raw values
/// of their identifiers, of whatever kind these are. It looks at no facets. What it holds changes only
/// through an exclusive reference: between the test for a key and the
/// insertion that follows it nobody else can step in, so an insertion that
/// may not replace never overwrites.
pub struct DashTrie {
    map: DashMap<u64, Arc<SubHshObj<AnyID>>>,
    sub_hsh_alg: Arc<SubHshAlg>,
}

impl DashTrie {
    /// An empty store, of the numeric algorithm of `algs`.
    pub fn new(algs: &AlgRegistry) -> (trie: Self)
        ensures
            holds_nothing(trie.spec_entries()),
            trie.spec_alg() == algs.spec_num_alg(),
    {
        DashTrie { map: dash_new(), sub_hsh_alg: NumID::new(0, algs).alg().clone() }
    }
}

impl IUseSubHshAlg for DashTrie {
    closed spec fn spec_alg(&self) -> SubHshAlg {
        *self.sub_hsh_alg
    }

    fn alg(&self) -> (alg: &Arc<SubHshAlg>) {
        &self.sub_hsh_alg
    }
}

impl IHashTrie<SubHshObj<AnyID>, AnyID> for DashTrie {
    closed spec fn spec_entries(&self) -> Map<u64, Arc<SubHshObj<AnyID>>> {
        dash_entries(self.map)
    }

    fn faceted(&self) -> (faceted: bool)
        ensures
            !faceted,
    {
        false
    }

    fn size(&self) -> (size: u64) {
        dash_len(&self.map) as u64
    }

    fn insert(&mut self, obj: Arc<SubHshObj<AnyID>>, replace: bool) -> (stored: Option<bool>) {
        let id = obj.id().raw_id();
        if !replace && dash_contains_key(&self.map, id) {
            return Some(false);
        }
        let _ = dash_insert(&mut self.map, id, obj);
        Some(true)
    }

    fn add(&mut self, obj: Arc<SubHshObj<AnyID>>) -> (stored: Option<bool>) {
        self.insert(obj, false)
    }

    fn get(&self, id: &AnyID) -> (obj: Option<Arc<SubHshObj<AnyID>>>) {
        dash_get(&self.map, id.raw_id())
    }

    fn remove(&mut self, id: &AnyID) -> (found: bool) {
        let ret = dash_remove(&mut self.map, id.raw_id());
        ret.is_some()
    }

    fn dispose(&mut self) {
        dash_clear(&mut self.map);
    }
}

} // verus!
