use crate::hsh::alg_registry::AlgRegistry;
use crate::hsh::hash_trie::MAX_FACETS;
use crate::hsh::id::num_id::{IFacets, INumID};
use crate::hsh::sub_hsh_alg::{ISubHshAlg, IUseSubHshAlg, SubHshAlg};
use std::sync::Arc;
use vstd::prelude::*;

verus! {

/// Whether every facet of `a` below `f` is other than 0: whether a walk up
/// the facets of `a` gets as far as `f`.
pub open spec fn walk_reaches<I: IFacets>(a: I, f: u8) -> bool {
    forall|g: u8| g < f ==> #[trigger] a.spec_raw_facet(g) != 0
}

/// Whether the walk up the facets takes `a` and `b` for the same. The walk
/// goes from facet 0 up to facet `MAX_FACETS` and ends early behind a facet
/// of `a` that is 0. Each facet that it reaches has to agree, and facet 0 of
/// `a` has to be other than 0: two identifiers whose facet 0 is 0 are not
/// taken for the same, not even an identifier and itself.
pub open spec fn facets_agree<I: IFacets>(a: I, b: I) -> bool {
    &&& a.spec_raw_facet(0) != 0
    &&& forall|f: u8|
        f <= MAX_FACETS && walk_reaches(a, f) ==> #[trigger] a.spec_raw_facet(f)
            == b.spec_raw_facet(f)
}

/// Whether an object of algorithm identity `alg_id` and identifier `a`
/// is the object that `b` identifies: `b` is of the object's algorithm, both
/// identifiers have facets or neither has, and then the raw values are equal
/// where there are no facets, and the facets agree where there are.
pub open spec fn same_by_id_of<I: IFacets>(alg_id: i64, a: I, b: I) -> bool {
    &&& alg_id == b.spec_alg().spec_id()
    &&& a.spec_has_facets() == b.spec_has_facets()
    &&& if a.spec_has_facets() {
        facets_agree(a, b)
    } else {
        a.spec_raw_facet(0) == b.spec_raw_facet(0)
    }
}

/// An object that an identifier identifies.
pub trait ISubHshObj<I: INumID>: IUseSubHshAlg {
    /// The identifier of the object.
    spec fn spec_obj_id(&self) -> I;

    fn id(&self) -> (id: &I)
        ensures
            *id == self.spec_obj_id(),
    ;

    /// Whether `id` identifies this object.
    fn is_same_by_id(&self, id: &I) -> (same: bool)
        ensures
            same == same_by_id_of(self.spec_alg().spec_id(), self.spec_obj_id(), *id),
    {
        if !self.same_alg(id.alg()) {
            return false;
        }
        let own = self.id();
        if own.has_facets() != id.has_facets() {
            return false;
        }
        if !own.has_facets() {
            id.raw_id() == own.raw_id()
        } else {
            let mut f: u8 = 0;
            while f <= MAX_FACETS
                invariant
                    f <= MAX_FACETS + 1,
                    *own == self.spec_obj_id(),
                    self.spec_alg().spec_id() == id.spec_alg().spec_id(),
                    own.spec_has_facets(),
                    id.spec_has_facets(),
                    walk_reaches(*own, f),
                    forall|g: u8| g < f ==> #[trigger] own.spec_raw_facet(g) == id.spec_raw_facet(g),
                ensures
                    f <= MAX_FACETS + 1,
                    f == 0 ==> own.spec_raw_facet(0) == 0,
                    f > 0 ==> facets_agree(*own, *id),
                decreases MAX_FACETS + 1 - f,
            {
                let s = own.raw_facet(f);
                if id.raw_facet(f) != s {
                    assert(!facets_agree(*own, *id));
                    return false;
                }
                if s == 0 {
                    proof {
                        if f > 0 {
                            assert forall|h: u8|
                                h <= MAX_FACETS && walk_reaches(*own, h) implies #[trigger] own.spec_raw_facet(
                                h,
                            ) == id.spec_raw_facet(h) by {
                                if h > f {
                                    assert(own.spec_raw_facet(f) != 0);
                                }
                            }
                        }
                    }
                    break ;
                }
                f = f + 1;
            }
            0 < f
        }
    }
}

/// An object identified by an identifier that can be made from a raw
/// value.
pub struct SubHshObj<I: INumID> {
    id: I,
    alg: Arc<SubHshAlg>,
}

impl<I: INumID> SubHshObj<I> {
    #[verifier::type_invariant]
    spec fn inv(&self) -> bool {
        *self.alg == self.id.spec_alg()
    }

    /// The object whose identifier has the raw value `raw_id`; `None` where
    /// `I` cannot be made from a raw value.
    pub fn new(raw_id: u64, algs: &AlgRegistry) -> (obj: Option<Self>)
        ensures
            obj is Some <==> I::spec_takes_raw(),
            obj matches Some(o) ==> {
                &&& o.spec_obj_id().spec_raw_facet(0) == raw_id
                &&& !o.spec_obj_id().spec_has_facets()
                &&& o.spec_alg() == algs.spec_num_alg()
            },
    {
        match I::new_0_facet_id(raw_id, algs) {
            Some(id) => {
                let alg = id.alg().clone();
                Some(SubHshObj { id, alg })
            },
            None => None,
        }
    }
}

impl<I: INumID> SubHshObj<I> {
    /// The object that `id` identifies.
    pub fn of_id(id: I) -> (obj: Self)
        ensures
            obj.spec_obj_id() == id,
            obj.spec_alg() == id.spec_alg(),
    {
        let alg = id.alg().clone();
        SubHshObj { id, alg }
    }
}

impl<I: INumID> IUseSubHshAlg for SubHshObj<I> {
    closed spec fn spec_alg(&self) -> SubHshAlg {
        self.id.spec_alg()
    }

    fn alg(&self) -> (alg: &Arc<SubHshAlg>) {
        proof {
            use_type_invariant(self);
        }
        &self.alg
    }
}

impl<I: INumID> ISubHshObj<I> for SubHshObj<I> {
    closed spec fn spec_obj_id(&self) -> I {
        self.id
    }

    fn id(&self) -> (id: &I) {
        &self.id
    }
}

/// An identifier whose facet 0 is 0 is never found to identify an object
/// by the walk up the facets, whatever the other facets are.
pub proof fn law_zero_raw_facet_never_agrees<I: IFacets>(a: I, b: I)
    requires
        a.spec_raw_facet(0) == 0,
    ensures
        !facets_agree(a, b),
{
}

/// Where neither identifier has facets, an object is the one that an
/// identifier of its algorithm identifies exactly when the raw values are
/// equal.
pub proof fn law_unfaceted_same_is_raw_equality<I: IFacets>(alg_id: i64, a: I, b: I)
    requires
        !a.spec_has_facets(),
        !b.spec_has_facets(),
        alg_id == b.spec_alg().spec_id(),
    ensures
        same_by_id_of(alg_id, a, b) <==> a.spec_raw_facet(0) == b.spec_raw_facet(0),
{
}

} // verus!
