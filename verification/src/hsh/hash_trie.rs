use crate::hsh::id::num_id::{IFacets, INumID};
use crate::hsh::obj::sub_hsh_obj::ISubHshObj;
use crate::hsh::sub_hsh_alg::IUseSubHshAlg;
use std::sync::Arc;
use vstd::prelude::*;

verus! {

/// The last facet index that a comparison of two identifiers looks at.
pub const MAX_FACETS: u8 = 16;

/// Whether a store holds nothing at all.
pub open spec fn holds_nothing<H>(entries: Map<u64, H>) -> bool {
    entries == Map::<u64, H>::empty()
}

/// Whether a store holds `size` objects: finitely many, and that many.
pub open spec fn has_size<H>(entries: Map<u64, H>, size: nat) -> bool {
    entries.dom().finite() && entries.len() == size
}

/// What a store holds under `key`, if anything.
pub open spec fn lookup<H>(entries: Map<u64, H>, key: u64) -> Option<H> {
    if entries.contains_key(key) {
        Some(entries[key])
    } else {
        None
    }
}

/// Whether an insertion under `key` stores: always when it may replace,
/// else only where the key is free.
pub open spec fn insert_stores<H>(entries: Map<u64, H>, key: u64, replace: bool) -> bool {
    replace || !entries.contains_key(key)
}

/// What a store holds after an insertion of `obj` under `key`.
pub open spec fn after_insert<H>(entries: Map<u64, H>, key: u64, obj: H, replace: bool) -> Map<
    u64,
    H,
> {
    if insert_stores(entries, key, replace) {
        entries.insert(key, obj)
    } else {
        entries
    }
}

/// A store of identified objects, each under the raw value of its
/// identifier. It says nothing of any order among them.
pub trait IHashTrie<O: ISubHshObj<I>, I: INumID>: IUseSubHshAlg {
    /// What the store holds: the handle of each object under its raw
    /// identifier.
    spec fn spec_entries(&self) -> Map<u64, Arc<O>>;

    /// Whether the store looks at facets beyond the raw value.
    fn faceted(&self) -> bool;

    /// Number of objects in the store.
    fn size(&self) -> (size: u64)
        ensures
            has_size(self.spec_entries(), size as nat),
    ;

    /// Stores `obj` under the raw value of its identifier. Where the store
    /// holds an object under that value already, it is replaced if `replace`
    /// says so, else nothing changes. The result says whether `obj` was
    /// stored.
    fn insert(&mut self, obj: Arc<O>, replace: bool) -> (stored: Option<bool>)
        ensures
            stored == Some(
                insert_stores(
                    old(self).spec_entries(),
                    obj.spec_obj_id().spec_raw_facet(0),
                    replace,
                ),
            ),
            final(self).spec_entries() == after_insert(
                old(self).spec_entries(),
                obj.spec_obj_id().spec_raw_facet(0),
                obj,
                replace,
            ),
            final(self).spec_alg() == old(self).spec_alg(),
    ;

    /// Stores `obj` unless the store holds an object under the same raw
    /// value.
    fn add(&mut self, obj: Arc<O>) -> (stored: Option<bool>)
        ensures
            stored == Some(
                insert_stores(old(self).spec_entries(), obj.spec_obj_id().spec_raw_facet(0), false),
            ),
            final(self).spec_entries() == after_insert(
                old(self).spec_entries(),
                obj.spec_obj_id().spec_raw_facet(0),
                obj,
                false,
            ),
            final(self).spec_alg() == old(self).spec_alg(),
    ;

    /// The handle stored under the raw value of `id`, if there is one.
    fn get(&self, id: &I) -> (obj: Option<Arc<O>>)
        ensures
            obj == lookup(self.spec_entries(), id.spec_raw_facet(0)),
    ;

    /// Takes out what is stored under the raw value of `id`, and says
    /// whether there was anything.
    fn remove(&mut self, id: &I) -> (found: bool)
        ensures
            found == old(self).spec_entries().contains_key(id.spec_raw_facet(0)),
            final(self).spec_entries() == old(self).spec_entries().remove(id.spec_raw_facet(0)),
            final(self).spec_alg() == old(self).spec_alg(),
    ;

    /// Takes out everything.
    fn dispose(&mut self)
        ensures
            holds_nothing(final(self).spec_entries()),
            final(self).spec_alg() == old(self).spec_alg(),
    ;
}

/// After an object was added, the store holds something under its raw
/// value: the object itself where the value was free, else what was there.
pub proof fn law_get_after_add<H>(entries: Map<u64, H>, key: u64, obj: H)
    ensures
        lookup(after_insert(entries, key, obj, false), key) == Some(
            if entries.contains_key(key) {
                entries[key]
            } else {
                obj
            },
        ),
{
}

/// A second addition under one raw value is refused and leaves the first
/// object in place.
pub proof fn law_second_add_is_refused<H>(entries: Map<u64, H>, key: u64, first: H, second: H)
    requires
        !entries.contains_key(key),
    ensures
        insert_stores(entries, key, false),
        !insert_stores(after_insert(entries, key, first, false), key, false),
        after_insert(after_insert(entries, key, first, false), key, second, false) == after_insert(
            entries,
            key,
            first,
            false,
        ),
        lookup(after_insert(after_insert(entries, key, first, false), key, second, false), key)
            == Some(first),
{
}

/// An insertion that may replace always stores, and the store then holds
/// the new object.
pub proof fn law_replace_overwrites<H>(entries: Map<u64, H>, key: u64, obj: H)
    ensures
        insert_stores(entries, key, true),
        lookup(after_insert(entries, key, obj, true), key) == Some(obj),
{
}

/// Nothing is found under a raw value after it was removed.
pub proof fn law_get_after_remove<H>(entries: Map<u64, H>, key: u64)
    ensures
        lookup(entries.remove(key), key) is None,
{
}

/// A store that was disposed of holds nothing: its size is 0.
pub proof fn law_dispose_empties<H>(entries: Map<u64, H>)
    requires
        holds_nothing(entries),
    ensures
        has_size(entries, 0),
        forall|key: u64| lookup(entries, key) is None,
{
}

} // verus!
