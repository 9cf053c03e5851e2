use isomech::hsh::alg_registry::AlgRegistry;
use isomech::hsh::dash_trie::DashTrie;
use isomech::hsh::hash_trie::{IHashTrie, MAX_FACETS};
use isomech::hsh::id::any_id::AnyID;
use isomech::hsh::id::num_id::{IFacets, NumID, RawID};
use isomech::hsh::str::str_id::StrID;
use isomech::hsh::obj::sub_hsh_obj::{ISubHshObj, SubHshObj};
use isomech::hsh::sub_hsh_alg::{ISubHshAlg, IUseSubHshAlg, IdTally};
use std::sync::Arc;

fn registry() -> AlgRegistry {
    let mut tally = IdTally::new();
    match AlgRegistry::new(&mut tally) {
        Ok(algs) => algs,
        Err(e) => panic!("registry refused: {:?}", e),
    }
}

fn handle(raw: u64, algs: &AlgRegistry) -> Arc<SubHshObj<AnyID>> {
    match SubHshObj::<AnyID>::new(raw, algs) {
        Some(obj) => Arc::new(obj),
        None => panic!("no numeric object"),
    }
}

fn text_handle(text: &'static str, algs: &AlgRegistry) -> Arc<SubHshObj<AnyID>> {
    Arc::new(SubHshObj::of_id(AnyID::Str(StrID::new(text, algs))))
}

fn key(raw: u64, algs: &AlgRegistry) -> AnyID {
    AnyID::Num(NumID::new(raw, algs))
}

#[test]
fn walk_looks_at_facets_up_to_sixteen() {
    assert_eq!(MAX_FACETS, 16);
}

#[test]
fn new_store_is_empty_and_of_the_numeric_algorithm() {
    let algs = registry();
    let trie = DashTrie::new(&algs);
    assert_eq!(trie.size(), 0);
    assert!(!trie.faceted());
    assert_eq!(trie.alg().id(), algs.num_alg().id());
    assert!(trie.same_alg(algs.num_alg()));
    assert!(trie.get(&key(1, &algs)).is_none());
}

#[test]
fn add_then_get_returns_the_stored_handle() {
    let algs = registry();
    let mut trie = DashTrie::new(&algs);
    let obj = handle(10, &algs);
    assert_eq!(trie.add(obj.clone()), Some(true));
    assert_eq!(trie.size(), 1);
    match trie.get(&key(10, &algs)) {
        Some(found) => {
            assert!(Arc::ptr_eq(&found, &obj));
            assert_eq!(found.id().raw_id(), 10);
        }
        None => panic!("nothing under 10"),
    }
    assert!(trie.get(&key(11, &algs)).is_none());
}

#[test]
fn second_add_is_refused_and_the_first_stays() {
    let algs = registry();
    let mut trie = DashTrie::new(&algs);
    let first = handle(10, &algs);
    let second = handle(10, &algs);
    assert_eq!(trie.add(first.clone()), Some(true));
    assert_eq!(trie.add(second.clone()), Some(false));
    assert_eq!(trie.size(), 1);
    match trie.get(&key(10, &algs)) {
        Some(found) => {
            assert!(Arc::ptr_eq(&found, &first));
            assert!(!Arc::ptr_eq(&found, &second));
        }
        None => panic!("nothing under 10"),
    }
}

#[test]
fn insert_without_replace_is_add() {
    let algs = registry();
    let mut trie = DashTrie::new(&algs);
    let first = handle(3, &algs);
    let second = handle(3, &algs);
    assert_eq!(trie.insert(first.clone(), false), Some(true));
    assert_eq!(trie.insert(second, false), Some(false));
    match trie.get(&key(3, &algs)) {
        Some(found) => assert!(Arc::ptr_eq(&found, &first)),
        None => panic!("nothing under 3"),
    }
}

#[test]
fn insert_with_replace_overwrites() {
    let algs = registry();
    let mut trie = DashTrie::new(&algs);
    let first = handle(3, &algs);
    let second = handle(3, &algs);
    assert_eq!(trie.insert(first.clone(), true), Some(true));
    assert_eq!(trie.insert(second.clone(), true), Some(true));
    assert_eq!(trie.size(), 1);
    match trie.get(&key(3, &algs)) {
        Some(found) => {
            assert!(Arc::ptr_eq(&found, &second));
            assert!(!Arc::ptr_eq(&found, &first));
        }
        None => panic!("nothing under 3"),
    }
}

#[test]
fn remove_then_get_finds_nothing() {
    let algs = registry();
    let mut trie = DashTrie::new(&algs);
    assert_eq!(trie.add(handle(10, &algs)), Some(true));
    assert_eq!(trie.add(handle(11, &algs)), Some(true));
    assert!(trie.remove(&key(10, &algs)));
    assert!(trie.get(&key(10, &algs)).is_none());
    assert!(trie.get(&key(11, &algs)).is_some());
    assert_eq!(trie.size(), 1);
    // nothing is left to remove
    assert!(!trie.remove(&key(10, &algs)));
    assert!(!trie.remove(&key(99, &algs)));
    assert_eq!(trie.size(), 1);
    // the raw value is free again
    assert_eq!(trie.add(handle(10, &algs)), Some(true));
    assert_eq!(trie.size(), 2);
}

#[test]
fn dispose_empties_the_store() {
    let algs = registry();
    let mut trie = DashTrie::new(&algs);
    let mut raw: u64 = 1;
    while raw <= 20 {
        assert_eq!(trie.add(handle(raw, &algs)), Some(true));
        raw += 1;
    }
    assert_eq!(trie.size(), 20);
    trie.dispose();
    assert_eq!(trie.size(), 0);
    assert!(trie.get(&key(5, &algs)).is_none());
    assert_eq!(trie.add(handle(5, &algs)), Some(true));
    assert_eq!(trie.size(), 1);
}

#[test]
fn raw_value_zero_is_a_key_like_any_other() {
    let algs = registry();
    let mut trie = DashTrie::new(&algs);
    assert_eq!(trie.add(handle(0, &algs)), Some(true));
    assert_eq!(trie.add(handle(0, &algs)), Some(false));
    assert!(trie.get(&key(0, &algs)).is_some());
    assert!(trie.remove(&key(0, &algs)));
    assert_eq!(trie.size(), 0);
}

#[test]
fn callers_keep_their_handles() {
    let algs = registry();
    let mut trie = DashTrie::new(&algs);
    let obj = handle(10, &algs);
    assert_eq!(trie.add(obj.clone()), Some(true));
    assert!(trie.remove(&key(10, &algs)));
    assert_eq!(obj.id().raw_id(), 10);
    trie.dispose();
    assert_eq!(obj.alg().id(), algs.num_alg().id());
}

#[test]
fn objects_of_string_identifiers_are_stored_under_facet_0() {
    let algs = registry();
    let mut trie = DashTrie::new(&algs);
    let alpha = text_handle("alpha", &algs);
    assert_eq!(trie.add(alpha.clone()), Some(true));
    assert_eq!(trie.size(), 1);
    match trie.get(&AnyID::Str(StrID::new("alpha", &algs))) {
        Some(found) => {
            assert!(Arc::ptr_eq(&found, &alpha));
            assert_eq!(found.id().source(), Some("alpha"));
        }
        None => panic!("nothing under alpha"),
    }
    // the store goes by the raw value alone
    match trie.get(&key(17088281263521542342, &algs)) {
        Some(found) => assert!(Arc::ptr_eq(&found, &alpha)),
        None => panic!("nothing under the raw value of alpha"),
    }
    assert!(trie.get(&AnyID::Str(StrID::new("beta", &algs))).is_none());
    assert!(trie.remove(&AnyID::Str(StrID::new("alpha", &algs))));
    assert_eq!(trie.size(), 0);
}

#[test]
fn strings_of_one_raw_value_share_a_slot() {
    let algs = registry();
    let mut trie = DashTrie::new(&algs);
    let first = text_handle("abcd", &algs);
    let second = text_handle("zzcd", &algs);
    assert_eq!(first.id().raw_id(), second.id().raw_id());
    assert_eq!(trie.add(first.clone()), Some(true));
    assert_eq!(trie.add(second.clone()), Some(false));
    match trie.get(&AnyID::Str(StrID::new("zzcd", &algs))) {
        Some(found) => {
            assert!(Arc::ptr_eq(&found, &first));
            // the facet walk tells the two apart
            assert!(!found.is_same_by_id(&AnyID::Str(StrID::new("zzcd", &algs))));
            assert!(found.is_same_by_id(&AnyID::Str(StrID::new("abcd", &algs))));
        }
        None => panic!("nothing under the shared raw value"),
    }
    assert_eq!(trie.insert(second.clone(), true), Some(true));
    match trie.get(&AnyID::Str(StrID::new("abcd", &algs))) {
        Some(found) => assert!(Arc::ptr_eq(&found, &second)),
        None => panic!("nothing under the shared raw value"),
    }
}

#[test]
fn objects_of_settable_identifiers_are_stored_too() {
    let algs = registry();
    let mut trie = DashTrie::new(&algs);
    let raw = RawID::new(&NumID::new(21, &algs), &algs);
    let obj = Arc::new(SubHshObj::of_id(AnyID::Raw(raw)));
    assert_eq!(trie.add(obj.clone()), Some(true));
    match trie.get(&key(21, &algs)) {
        Some(found) => assert!(Arc::ptr_eq(&found, &obj)),
        None => panic!("nothing under 21"),
    }
}
