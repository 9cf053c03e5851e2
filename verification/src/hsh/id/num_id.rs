use crate::hsh::alg_registry::AlgRegistry;
use crate::hsh::sub_hsh_alg::{ISubHshAlg, IUseSubHshAlg, SubHshAlg};
use std::sync::Arc;
use vstd::prelude::*;

verus! {

/// Whether the identifier `a` takes `b` for the same identifier. Both have
/// to be of one algorithm. A numeric `a` then goes by the raw values; a
/// string-derived `a` asks that `b` is string-derived too and of the very
/// same source string, whatever the facets are.
pub open spec fn same_id_of<A: IFacets, B: IFacets>(a: A, b: B) -> bool {
    &&& a.spec_alg().spec_id() == b.spec_alg().spec_id()
    &&& match a.spec_source() {
        None => a.spec_raw_facet(0) == b.spec_raw_facet(0),
        Some(source) => b.spec_source() == Some(source),
    }
}

/// What can be read of an identifier: a raw 64-bit value, which is its
/// facet 0, for some kinds further facets, and for a string-derived one the
/// string.
pub trait IFacets: IUseSubHshAlg {
    /// Facet `facet` of the identifier; facet 0 is its raw value.
    spec fn spec_raw_facet(&self, facet: u8) -> u64;

    /// Whether the identifier has facets beyond its raw value.
    spec fn spec_has_facets(&self) -> bool;

    /// The string that the identifier was derived from, if it was derived
    /// from one.
    spec fn spec_source(&self) -> Option<Seq<char>>;

    /// The string that the identifier was derived from, if it was derived
    /// from one.
    fn source(&self) -> (source: Option<&str>)
        ensures
            match source {
                Some(s) => self.spec_source() == Some(s@),
                None => self.spec_source() is None,
            },
    ;

    fn raw_id(&self) -> (raw: u64)
        ensures
            raw == self.spec_raw_facet(0),
    ;

    fn raw_facet(&self, facet: u8) -> (raw: u64)
        ensures
            raw == self.spec_raw_facet(facet),
    ;

    fn has_facets(&self) -> (faceted: bool)
        ensures
            faceted == self.spec_has_facets(),
    ;
}

/// An identifier: what can be read of it, how it tells whether another
/// identifier is the same, and how one without facets is made.
pub trait INumID: IFacets + Sized {
    /// Whether an identifier of this kind can be made from a raw value.
    spec fn spec_takes_raw() -> bool;

    fn same_id<J: IFacets>(&self, id: &J) -> (same: bool)
        ensures
            same == same_id_of(*self, *id),
    ;

    /// The identifier without facets whose raw value is `raw`, of the
    /// numeric algorithm of `algs`; `None` for a kind that cannot be made
    /// from a raw value.
    fn new_0_facet_id(raw: u64, algs: &AlgRegistry) -> (id: Option<Self>)
        ensures
            id is Some <==> Self::spec_takes_raw(),
            id matches Some(i) ==> {
                &&& i.spec_raw_facet(0) == raw
                &&& !i.spec_has_facets()
                &&& i.spec_source() is None
                &&& i.spec_alg() == algs.spec_num_alg()
            },
    ;
}

/// A numeric identifier: one raw value and no facets.
pub struct NumID {
    raw: u64,
    alg: Arc<SubHshAlg>,
}

impl NumID {
    /// The raw value.
    pub closed spec fn spec_raw(&self) -> u64 {
        self.raw
    }

    /// The identifier of raw value `raw_id`, of the numeric algorithm of
    /// `algs`.
    pub fn new(raw_id: u64, algs: &AlgRegistry) -> (id: Self)
        ensures
            id.spec_raw() == raw_id,
            id.spec_alg() == algs.spec_num_alg(),
    {
        NumID { raw: raw_id, alg: algs.num_alg().clone() }
    }
}

impl PartialEq for NumID {
    /// Two numeric identifiers are equal when their raw values are.
    fn eq(&self, other: &Self) -> (equal: bool) {
        self.raw_id() == other.raw_id()
    }
}

impl vstd::std_specs::cmp::PartialEqSpecImpl for NumID {
    open spec fn obeys_eq_spec() -> bool {
        true
    }

    open spec fn eq_spec(&self, other: &Self) -> bool {
        self.spec_raw() == other.spec_raw()
    }
}

impl Eq for NumID {

}

impl Clone for NumID {
    fn clone(&self) -> (id: Self)
        ensures
            id.spec_raw() == self.spec_raw(),
            id.spec_alg() == self.spec_alg(),
    {
        NumID { raw: self.raw, alg: self.alg.clone() }
    }
}

impl IUseSubHshAlg for NumID {
    closed spec fn spec_alg(&self) -> SubHshAlg {
        *self.alg
    }

    fn alg(&self) -> (alg: &Arc<SubHshAlg>) {
        &self.alg
    }
}

impl IFacets for NumID {
    open spec fn spec_raw_facet(&self, facet: u8) -> u64 {
        if facet == 0 {
            self.spec_raw()
        } else {
            0
        }
    }

    open spec fn spec_has_facets(&self) -> bool {
        false
    }

    open spec fn spec_source(&self) -> Option<Seq<char>> {
        None
    }

    fn source(&self) -> (source: Option<&str>) {
        None
    }

    fn raw_id(&self) -> (raw: u64) {
        self.raw
    }

    fn raw_facet(&self, facet: u8) -> (raw: u64) {
        if 0 < facet {
            0
        } else {
            self.raw_id()
        }
    }

    fn has_facets(&self) -> (faceted: bool) {
        false
    }
}

impl INumID for NumID {
    open spec fn spec_takes_raw() -> bool {
        true
    }

    fn same_id<J: IFacets>(&self, id: &J) -> (same: bool) {
        id.raw_id() == self.raw && id.same_alg(&self.alg)
    }

    fn new_0_facet_id(raw: u64, algs: &AlgRegistry) -> (id: Option<Self>) {
        Some(NumID { raw, alg: algs.num_alg().clone() })
    }
}

/// A numeric identifier whose raw value can be set.
pub trait IRawID: INumID {
    fn set_rawid(&mut self, rawid: u64)
        ensures
            final(self).spec_raw_facet(0) == rawid,
            final(self).spec_alg() == old(self).spec_alg(),
            final(self).spec_has_facets() == old(self).spec_has_facets(),
            final(self).spec_source() == old(self).spec_source(),
    ;
}

/// A numeric identifier whose raw value can be set.
pub struct RawID {
    num_id: NumID,
}

impl RawID {
    /// The numeric identifier inside.
    pub closed spec fn spec_num_id(&self) -> NumID {
        self.num_id
    }

    /// The identifier whose raw value is that of `nid`, of the numeric
    /// algorithm of `algs`.
    pub fn new<J: IFacets>(nid: &J, algs: &AlgRegistry) -> (id: Self)
        ensures
            id.spec_num_id().spec_raw() == nid.spec_raw_facet(0),
            id.spec_alg() == algs.spec_num_alg(),
    {
        RawID { num_id: NumID::new(nid.raw_id(), algs) }
    }
}

impl Clone for RawID {
    fn clone(&self) -> (id: Self)
        ensures
            id.spec_num_id().spec_raw() == self.spec_num_id().spec_raw(),
            id.spec_alg() == self.spec_alg(),
    {
        RawID { num_id: self.num_id.clone() }
    }
}

impl IUseSubHshAlg for RawID {
    open spec fn spec_alg(&self) -> SubHshAlg {
        self.spec_num_id().spec_alg()
    }

    fn alg(&self) -> (alg: &Arc<SubHshAlg>) {
        self.num_id.alg()
    }
}

impl IFacets for RawID {
    open spec fn spec_raw_facet(&self, facet: u8) -> u64 {
        self.spec_num_id().spec_raw_facet(facet)
    }

    open spec fn spec_has_facets(&self) -> bool {
        false
    }

    open spec fn spec_source(&self) -> Option<Seq<char>> {
        None
    }

    fn source(&self) -> (source: Option<&str>) {
        None
    }

    fn raw_id(&self) -> (raw: u64) {
        self.num_id.raw_id()
    }

    fn raw_facet(&self, facet: u8) -> (raw: u64) {
        self.num_id.raw_facet(facet)
    }

    fn has_facets(&self) -> (faceted: bool) {
        self.num_id.has_facets()
    }
}

impl INumID for RawID {
    open spec fn spec_takes_raw() -> bool {
        true
    }

    fn same_id<J: IFacets>(&self, id: &J) -> (same: bool) {
        self.num_id.same_id(id)
    }

    fn new_0_facet_id(raw: u64, algs: &AlgRegistry) -> (id: Option<Self>) {
        Some(RawID { num_id: NumID::new(raw, algs) })
    }
}

impl IRawID for RawID {
    fn set_rawid(&mut self, rawid: u64) {
        self.num_id.raw = rawid;
    }
}

/// Two numeric identifiers of one registry are the same identifier
/// exactly when their raw values are equal.
pub proof fn law_numeric_same_id_is_raw_equality(algs: AlgRegistry, a: NumID, b: NumID)
    requires
        a.spec_alg() == algs.spec_num_alg(),
        b.spec_alg() == algs.spec_num_alg(),
    ensures
        same_id_of(a, b) <==> a.spec_raw() == b.spec_raw(),
{
}

} // verus!
