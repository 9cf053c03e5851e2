use crate::hsh::bit_cell_map::BitCellMap;
use crate::hsh::str::str_alg::StrAlg;
use crate::hsh::sub_hsh_alg::{next_identity, AlgError, ISubHshAlg, IdTally, SubHshAlg};
use std::sync::Arc;
use vstd::prelude::*;

verus! {

/// The two built-in algorithms, one for numeric identifiers and one for
/// string-derived ones. A process makes one registry and keeps it; every
/// identifier built from it shares its two algorithms.
pub struct AlgRegistry {
    num_alg: Arc<SubHshAlg>,
    str_alg: Arc<StrAlg>,
}

impl AlgRegistry {
    /// The numeric algorithm.
    pub closed spec fn spec_num_alg(&self) -> SubHshAlg {
        *self.num_alg
    }

    /// The string algorithm.
    pub closed spec fn spec_str_alg(&self) -> StrAlg {
        *self.str_alg
    }

    /// The two algorithms are not the same algorithm.
    pub open spec fn wf(&self) -> bool {
        self.spec_num_alg().spec_id() != self.spec_str_alg().spec_id()
    }

    /// Builds the two algorithms, the numeric one first, with the next two
    /// identities of `tally`. With fewer than two left it draws none.
    pub fn new(tally: &mut IdTally) -> (r: Result<Self, AlgError>)
        ensures
            match r {
                Ok(algs) => {
                    &&& old(tally).issued() < i64::MAX - 1
                    &&& algs.wf()
                    &&& algs.spec_num_alg().spec_id() == next_identity(old(tally).issued())
                    &&& algs.spec_str_alg().spec_id() == next_identity(
                        algs.spec_num_alg().spec_id() as int,
                    )
                    &&& algs.spec_num_alg().spec_bits() == 4
                    &&& algs.spec_str_alg().spec_bits() == 4
                    &&& algs.spec_num_alg().spec_cell_map().widths() == seq![64u8]
                    &&& algs.spec_str_alg().spec_cell_map().widths() == seq![64u8]
                    &&& final(tally).issued() == algs.spec_str_alg().spec_id()
                },
                Err(e) => {
                    &&& e == AlgError::IdsExhausted
                    &&& old(tally).issued() >= i64::MAX - 1
                    &&& final(tally).issued() == old(tally).issued()
                },
            },
    {
        if tally.last_issued() >= i64::MAX - 1 {
            return Err(AlgError::IdsExhausted);
        }
        let num_alg = match SubHshAlg::of_one_cell(tally) {
            Ok(alg) => alg,
            Err(e) => {
                return Err(e);
            },
        };
        let str_alg = match StrAlg::singleton(tally) {
            Ok(alg) => alg,
            Err(e) => {
                return Err(e);
            },
        };
        Ok(AlgRegistry { num_alg: Arc::new(num_alg), str_alg: Arc::new(str_alg) })
    }

    /// The numeric algorithm.
    pub fn num_alg(&self) -> (alg: &Arc<SubHshAlg>)
        ensures
            **alg == self.spec_num_alg(),
    {
        &self.num_alg
    }

    /// The string algorithm.
    pub fn str_alg(&self) -> (alg: &Arc<StrAlg>)
        ensures
            **alg == self.spec_str_alg(),
    {
        &self.str_alg
    }
}

} // verus!
