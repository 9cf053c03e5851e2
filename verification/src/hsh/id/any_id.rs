use crate::hsh::alg_registry::AlgRegistry;
use crate::hsh::id::num_id::{same_id_of, IFacets, INumID, NumID, RawID};
use crate::hsh::str::str_id::StrID;
use crate::hsh::sub_hsh_alg::{IUseSubHshAlg, SubHshAlg};
use std::sync::Arc;
use vstd::prelude::*;

verus! {

/// An identifier of any of the kinds there are. It reads as the identifier
/// inside does, so that identifiers of different kinds can stand side by
/// side, as the keys of one store do.
pub enum AnyID {
    Num(NumID),
    Raw(RawID),
    Str(StrID),
}

impl Clone for AnyID {
    fn clone(&self) -> (id: Self)
        ensures
            id.spec_alg() == self.spec_alg(),
            id.spec_has_facets() == self.spec_has_facets(),
            id.spec_source() == self.spec_source(),
            forall|f: u8| id.spec_raw_facet(f) == self.spec_raw_facet(f),
    {
        match self {
            AnyID::Num(id) => AnyID::Num(id.clone()),
            AnyID::Raw(id) => AnyID::Raw(id.clone()),
            AnyID::Str(id) => AnyID::Str(id.clone()),
        }
    }
}

impl IUseSubHshAlg for AnyID {
    open spec fn spec_alg(&self) -> SubHshAlg {
        match self {
            AnyID::Num(id) => id.spec_alg(),
            AnyID::Raw(id) => id.spec_alg(),
            AnyID::Str(id) => id.spec_alg(),
        }
    }

    fn alg(&self) -> (alg: &Arc<SubHshAlg>) {
        match self {
            AnyID::Num(id) => id.alg(),
            AnyID::Raw(id) => id.alg(),
            AnyID::Str(id) => id.alg(),
        }
    }
}

impl IFacets for AnyID {
    open spec fn spec_raw_facet(&self, facet: u8) -> u64 {
        match self {
            AnyID::Num(id) => id.spec_raw_facet(facet),
            AnyID::Raw(id) => id.spec_raw_facet(facet),
            AnyID::Str(id) => id.spec_raw_facet(facet),
        }
    }

    open spec fn spec_has_facets(&self) -> bool {
        match self {
            AnyID::Num(id) => id.spec_has_facets(),
            AnyID::Raw(id) => id.spec_has_facets(),
            AnyID::Str(id) => id.spec_has_facets(),
        }
    }

    open spec fn spec_source(&self) -> Option<Seq<char>> {
        match self {
            AnyID::Num(id) => id.spec_source(),
            AnyID::Raw(id) => id.spec_source(),
            AnyID::Str(id) => id.spec_source(),
        }
    }

    fn source(&self) -> (source: Option<&str>) {
        match self {
            AnyID::Num(id) => id.source(),
            AnyID::Raw(id) => id.source(),
            AnyID::Str(id) => id.source(),
        }
    }

    fn raw_id(&self) -> (raw: u64) {
        match self {
            AnyID::Num(id) => id.raw_id(),
            AnyID::Raw(id) => id.raw_id(),
            AnyID::Str(id) => id.raw_id(),
        }
    }

    fn raw_facet(&self, facet: u8) -> (raw: u64) {
        match self {
            AnyID::Num(id) => id.raw_facet(facet),
            AnyID::Raw(id) => id.raw_facet(facet),
            AnyID::Str(id) => id.raw_facet(facet),
        }
    }

    fn has_facets(&self) -> (faceted: bool) {
        match self {
            AnyID::Num(id) => id.has_facets(),
            AnyID::Raw(id) => id.has_facets(),
            AnyID::Str(id) => id.has_facets(),
        }
    }
}

impl INumID for AnyID {
    open spec fn spec_takes_raw() -> bool {
        true
    }

    fn same_id<J: IFacets>(&self, id: &J) -> (same: bool) {
        match self {
            AnyID::Num(own) => own.same_id(id),
            AnyID::Raw(own) => own.same_id(id),
            AnyID::Str(own) => own.same_id(id),
        }
    }

    fn new_0_facet_id(raw: u64, algs: &AlgRegistry) -> (id: Option<Self>) {
        Some(AnyID::Num(NumID::new(raw, algs)))
    }
}

} // verus!
