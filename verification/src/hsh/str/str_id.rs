use crate::hsh::alg_registry::AlgRegistry;
use crate::hsh::id::num_id::{same_id_of, IFacets, INumID, NumID};
use crate::hsh::str::str_alg::{collect_chars, make_id_of, IStrAlg, StrAlg};
use crate::hsh::sub_hsh_alg::{ISubHshAlg, IUseSubHshAlg, SubHshAlg};
use std::sync::Arc;
use vstd::prelude::*;
use vstd::rwlock::{RwLock, RwLockPredicate};

verus! {

/// Index of the last facet that a string identifier keeps.
pub const SID_END: u8 = 3;

/// Facet `facet` of the string identifier of `source`: the hash of the
/// string for the four facets that are kept, 0 for every other.
pub open spec fn str_facet_of(source: Seq<char>, facet: u8) -> u64 {
    if facet > SID_END {
        0
    } else {
        make_id_of(source, facet)
    }
}

/// What a facet cache may hold: in each slot 0, for a facet not worked out
/// yet, or the facet of `source`. A facet that is 0 is worked out anew on
/// each request.
pub struct FacetCache {
    pub source: Seq<char>,
}

impl RwLockPredicate<[u64; 4]> for FacetCache {
    open spec fn inv(self, v: [u64; 4]) -> bool {
        forall|f: int| 0 <= f < 4 ==> #[trigger] v[f] == 0 || v[f] == make_id_of(self.source, f as u8)
    }
}

/// A string-derived identifier.
pub trait IStrID: INumID {
    /// The string that the identifier was derived from.
    fn get_str(&self) -> (s: &str)
        ensures
            self.spec_source() == Some(s@),
    ;

    /// The identifier of `str`, of the string algorithm of `algs`.
    fn new_str_id(str: &'static str, algs: &AlgRegistry) -> (id: Self)
        ensures
            id.spec_source() == Some(str@),
            id.spec_has_facets(),
            id.spec_alg() == algs.spec_str_alg().spec_sub_alg(),
            forall|f: u8| id.spec_raw_facet(f) == str_facet_of(str@, f),
    ;
}

/// A string-derived identifier of four facets. A facet is hashed when it
/// is first asked for and kept from then on; clones share what is kept.
pub struct StrID {
    sid: Arc<RwLock<[u64; 4], FacetCache>>,
    _str: &'static str,
    alg: Arc<StrAlg>,
}

impl StrID {
    #[verifier::type_invariant]
    spec fn inv(&self) -> bool {
        self.sid.pred().source == self._str@
    }

    /// The string that the identifier was derived from.
    pub closed spec fn spec_str(&self) -> Seq<char> {
        self._str@
    }

    /// The string algorithm that the identifier belongs to.
    pub closed spec fn spec_string_alg(&self) -> StrAlg {
        *self.alg
    }

    /// The string algorithm of `algs`.
    pub fn get_string_alg(algs: &AlgRegistry) -> (alg: &Arc<StrAlg>)
        ensures
            **alg == algs.spec_str_alg(),
    {
        StrAlg::inst(algs)
    }

    /// The identifier of `str`, of the string algorithm of `algs`. No facet
    /// is hashed yet.
    pub fn new(str: &'static str, algs: &AlgRegistry) -> (id: Self)
        ensures
            id.spec_str() == str@,
            id.spec_string_alg() == algs.spec_str_alg(),
    {
        let cache: [u64; 4] = [0u64; 4];
        StrID {
            _str: str,
            sid: Arc::new(RwLock::new(cache, Ghost(FacetCache { source: str@ }))),
            alg: Self::get_string_alg(algs).clone(),
        }
    }
}

impl Clone for StrID {
    fn clone(&self) -> (id: Self)
        ensures
            id.spec_str() == self.spec_str(),
            id.spec_string_alg() == self.spec_string_alg(),
    {
        proof {
            use_type_invariant(self);
        }
        StrID { _str: self._str, sid: self.sid.clone(), alg: self.alg.clone() }
    }
}

impl IUseSubHshAlg for StrID {
    open spec fn spec_alg(&self) -> SubHshAlg {
        self.spec_string_alg().spec_sub_alg()
    }

    fn alg(&self) -> (alg: &Arc<SubHshAlg>) {
        self.alg.sub_alg()
    }
}

impl IFacets for StrID {
    open spec fn spec_raw_facet(&self, facet: u8) -> u64 {
        str_facet_of(self.spec_str(), facet)
    }

    open spec fn spec_has_facets(&self) -> bool {
        true
    }

    open spec fn spec_source(&self) -> Option<Seq<char>> {
        Some(self.spec_str())
    }

    fn source(&self) -> (source: Option<&str>) {
        Some(self._str)
    }

    fn raw_id(&self) -> (raw: u64) {
        self.raw_facet(0)
    }

    fn raw_facet(&self, facet: u8) -> (raw: u64) {
        if facet > SID_END {
            return 0;
        }
        proof {
            use_type_invariant(self);
        }
        let (mut sid, handle) = self.sid.acquire_write();
        let mut raw: u64 = sid[facet as usize];
        if raw == 0 {
            raw = StrAlg::make_id(self._str, facet);
            sid[facet as usize] = raw;
        }
        handle.release_write(sid);
        raw
    }

    fn has_facets(&self) -> (faceted: bool) {
        true
    }
}

impl INumID for StrID {
    open spec fn spec_takes_raw() -> bool {
        false
    }

    fn same_id<J: IFacets>(&self, id: &J) -> (same: bool) {
        if id.alg().id() == self.alg().id() {
            match id.source() {
                Some(other) => str_eq(other, self._str),
                None => false,
            }
        } else {
            false
        }
    }

    fn new_0_facet_id(_raw: u64, _algs: &AlgRegistry) -> (id: Option<Self>) {
        None
    }
}

impl IStrID for StrID {
    fn get_str(&self) -> (s: &str) {
        self._str
    }

    fn new_str_id(str: &'static str, algs: &AlgRegistry) -> (id: Self) {
        StrID::new(str, algs)
    }
}

/// Whether two strings hold the same characters.
pub fn str_eq(a: &str, b: &str) -> (equal: bool)
    ensures
        equal == (a@ == b@),
{
    let left = collect_chars(a);
    let right = collect_chars(b);
    if left.len() != right.len() {
        return false;
    }
    let mut i: usize = 0;
    while i < left.len()
        invariant
            i <= left@.len(),
            left@.len() == right@.len(),
            left@ == a@,
            right@ == b@,
            forall|j: int| 0 <= j < i ==> left@[j] == right@[j],
        decreases left@.len() - i,
    {
        if left[i] != right[i] {
            return false;
        }
        i = i + 1;
    }
    assert(a@ =~= b@);
    true
}

/// Two string identifiers of one registry are the same identifier
/// exactly when they were derived from the same string.
pub proof fn law_string_same_id_is_source_equality(algs: AlgRegistry, a: StrID, b: StrID)
    requires
        a.spec_string_alg() == algs.spec_str_alg(),
        b.spec_string_alg() == algs.spec_str_alg(),
    ensures
        same_id_of(a, b) <==> a.spec_str() == b.spec_str(),
{
}

/// String identifiers of different strings are never the same identifier,
/// whatever their facets are: a collision of raw values does not merge them.
pub proof fn law_different_strings_differ(a: StrID, b: StrID)
    requires
        a.spec_str() != b.spec_str(),
    ensures
        !same_id_of(a, b),
{
}

/// A numeric identifier and a string identifier of one registry are never
/// the same identifier, whichever of the two is asked.
pub proof fn law_numeric_and_string_never_same(algs: AlgRegistry, n: NumID, s: StrID)
    requires
        algs.wf(),
        n.spec_alg() == algs.spec_num_alg(),
        s.spec_string_alg() == algs.spec_str_alg(),
    ensures
        !same_id_of(n, s),
        !same_id_of(s, n),
{
}

} // verus!
