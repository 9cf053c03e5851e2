use crate::hsh::alg_registry::AlgRegistry;
use crate::hsh::id::num_id::IFacets;
use crate::hsh::obj::sub_hsh_obj::ISubHshObj;
use crate::hsh::str::str_alg::StrAlg;
use crate::hsh::str::str_id::{str_facet_of, IStrID};
use crate::hsh::sub_hsh_alg::{IUseSubHshAlg, SubHshAlg};
use std::sync::Arc;
use vstd::prelude::*;

verus! {

/// An object that a string-derived identifier identifies.
pub trait IStrObj<I: IStrID>: ISubHshObj<I> {

}

/// An object identified by a string.
pub struct StrObj<I: IStrID> {
    str_id: I,
}

impl<I: IStrID> StrObj<I> {
    /// The object that `str` identifies, of the string algorithm of `algs`.
    pub fn new(str: &'static str, algs: &AlgRegistry) -> (obj: Self)
        ensures
            obj.spec_obj_id().spec_source() == Some(str@),
            obj.spec_obj_id().spec_has_facets(),
            obj.spec_alg() == algs.spec_str_alg().spec_sub_alg(),
            forall|f: u8| obj.spec_obj_id().spec_raw_facet(f) == str_facet_of(str@, f),
    {
        StrObj { str_id: I::new_str_id(str, algs) }
    }
}

impl<I: IStrID> ISubHshObj<I> for StrObj<I> {
    closed spec fn spec_obj_id(&self) -> I {
        self.str_id
    }

    fn id(&self) -> (id: &I) {
        &self.str_id
    }
}

impl<I: IStrID> IUseSubHshAlg for StrObj<I> {
    closed spec fn spec_alg(&self) -> SubHshAlg {
        self.str_id.spec_alg()
    }

    fn alg(&self) -> (alg: &Arc<SubHshAlg>) {
        self.str_id.alg()
    }
}

impl<I: IStrID> IStrObj<I> for StrObj<I> {

}

} // verus!
