use crate::hsh::bit_cell_map::{widths_sum, BitCellMap};
use std::sync::Arc;
use vstd::arithmetic::power2::{lemma2_to64, pow2};
use vstd::bits::{
    low_bits_mask, lemma_u16_shl_is_mul, lemma_u64_low_bits_mask_is_mod, lemma_u64_shr_is_div,
};
use vstd::prelude::*;

verus! {

/// The widest directory that an algorithm can address, in bits.
pub const MAX_BIT: u8 = 10;

/// Why an algorithm descriptor was not built.
#[derive(Clone, Copy, Debug, PartialEq, Eq, Structural)]
pub enum AlgError {
    /// The directory was asked to be wider than `MAX_BIT` bits.
    TooManyBits,
    /// The counter has handed out its last identity.
    IdsExhausted,
}

/// The identity that follows `issued`.
pub open spec fn next_identity(issued: int) -> int {
    issued + 1
}

/// The identity handed out last after `n` draws from a counter that stood
/// at `start`.
pub open spec fn identity_after(start: int, n: nat) -> int
    decreases n,
{
    if n == 0 {
        start
    } else {
        next_identity(identity_after(start, (n - 1) as nat))
    }
}

/// Number of children of a directory of `bits` bits.
pub open spec fn dir_size_of(bits: u8) -> nat {
    pow2(bits as nat)
}

/// The directory index that an algorithm of `bits` bits reads from `raw_id`
/// at `depth`: `raw_id` shifted right by `bits * depth`, cut to a byte, and
/// masked with the last index of the directory. Shifted out of the word,
/// the index is 0.
pub open spec fn sub_hsh_of(bits: u8, raw_id: u64, depth: u8) -> u8 {
    if bits * depth >= 64 {
        0
    } else {
        (((raw_id >> ((bits * depth) as u64)) & 0xff) as u8) & ((((dir_size_of(bits) - 1) as u64)
            & 0xff) as u8)
    }
}

/// The counter that algorithm identities are drawn from. It starts at 0,
/// so the first identity is 1, and it only counts up.
pub struct IdTally {
    last: i64,
}

impl IdTally {
    #[verifier::type_invariant]
    spec fn inv(&self) -> bool {
        self.last >= 0
    }

    /// The identity handed out last; 0 before the first.
    pub closed spec fn issued(&self) -> int {
        self.last as int
    }

    /// A counter that has handed out nothing yet.
    pub fn new() -> (tally: Self)
        ensures
            tally.issued() == 0,
    {
        IdTally { last: 0 }
    }

    /// A counter that goes on behind the identity `issued`; `None` for a
    /// negative `issued`, which no counter ever hands out.
    pub fn after(issued: i64) -> (tally: Option<Self>)
        ensures
            tally is Some <==> issued >= 0,
            tally matches Some(t) ==> t.issued() == issued,
    {
        if issued < 0 {
            None
        } else {
            Some(IdTally { last: issued })
        }
    }

    /// The identity handed out last; 0 before the first.
    pub fn last_issued(&self) -> (last: i64)
        ensures
            last == self.issued(),
            last >= 0,
    {
        proof {
            use_type_invariant(self);
        }
        self.last
    }
}

/// What uses a hash-tree algorithm and can say which.
pub trait IUseSubHshAlg {
    /// The algorithm in use.
    spec fn spec_alg(&self) -> SubHshAlg;

    /// Whether `alg` is the algorithm in use: whether the identities agree.
    fn same_alg(&self, alg: &Arc<SubHshAlg>) -> (same: bool)
        ensures
            same == (self.spec_alg().spec_id() == alg.spec_id()),
    {
        self.alg().same_alg(alg)
    }

    fn alg(&self) -> (alg: &Arc<SubHshAlg>)
        ensures
            **alg == self.spec_alg(),
    ;
}

/// A hash-tree algorithm: an identity, a bit-cell layout, and directories of
/// a fixed power-of-two size to index into.
pub trait ISubHshAlg {
    /// Width of a directory index, in bits.
    spec fn spec_bits(&self) -> u8;

    /// The identity of the algorithm.
    spec fn spec_id(&self) -> i64;

    /// The layout of the keys.
    spec fn spec_cell_map(&self) -> BitCellMap;

    /// Number of children of a directory.
    fn dir_size(&self) -> (size: u16)
        ensures
            size == dir_size_of(self.spec_bits()),
    ;

    /// Last index of a directory.
    fn dir_last(&self) -> (last: u16)
        ensures
            last == dir_size_of(self.spec_bits()) - 1,
    ;

    /// The identity of the algorithm.
    fn id(&self) -> (id: i64)
        ensures
            id == self.spec_id(),
    ;

    fn get_cell_map(&self) -> (map: &Arc<BitCellMap>)
        ensures
            **map == self.spec_cell_map(),
    ;

    /// The index into the directory at `depth` that `raw_id` selects.
    fn sub_hsh(&self, raw_id: u64, depth: u8) -> (index: u8)
        ensures
            index == sub_hsh_of(self.spec_bits(), raw_id, depth),
    ;
}

/// The basic hash-tree algorithm. Each node of the tree has a directory of
/// `2^bits` children.
pub struct SubHshAlg {
    bits: u8,
    size: u16,
    last: u16,
    id: i64,
    cell_map: Arc<BitCellMap>,
}

impl SubHshAlg {
    #[verifier::type_invariant]
    spec fn inv(&self) -> bool {
        &&& self.bits <= MAX_BIT
        &&& self.size == dir_size_of(self.bits)
        &&& self.last == self.size - 1
        &&& self.id >= 1
    }

    /// Draws the next identity from `tally`, if it has one left.
    pub fn id_tally(tally: &mut IdTally) -> (id: Option<i64>)
        ensures
            id is Some <==> old(tally).issued() < i64::MAX,
            id matches Some(n) ==> n == next_identity(old(tally).issued()) && final(tally).issued()
                == n,
            id is None ==> final(tally).issued() == old(tally).issued(),
    {
        proof {
            use_type_invariant(&*tally);
        }
        if tally.last == i64::MAX {
            None
        } else {
            tally.last = tally.last + 1;
            Some(tally.last)
        }
    }

    /// Builds a descriptor of `sub_hsh_bits` directory bits over `map`, with
    /// the next identity of `tally`. A refused construction draws none.
    pub fn new(sub_hsh_bits: u8, map: &Arc<BitCellMap>, tally: &mut IdTally) -> (r: Result<
        Self,
        AlgError,
    >)
        ensures
            match r {
                Ok(alg) => {
                    &&& sub_hsh_bits <= MAX_BIT
                    &&& old(tally).issued() < i64::MAX
                    &&& alg.spec_bits() == sub_hsh_bits
                    &&& alg.spec_id() == next_identity(old(tally).issued())
                    &&& alg.spec_cell_map() == **map
                    &&& final(tally).issued() == alg.spec_id()
                },
                Err(AlgError::TooManyBits) => {
                    &&& sub_hsh_bits > MAX_BIT
                    &&& final(tally).issued() == old(tally).issued()
                },
                Err(AlgError::IdsExhausted) => {
                    &&& sub_hsh_bits <= MAX_BIT
                    &&& old(tally).issued() == i64::MAX
                    &&& final(tally).issued() == old(tally).issued()
                },
            },
    {
        if sub_hsh_bits > MAX_BIT {
            return Err(AlgError::TooManyBits);
        }
        let bits = sub_hsh_bits;
        proof {
            lemma_dir_size_values(bits);
            lemma_u16_shl_is_mul(1u16, bits as u16);
        }
        let size: u16 = 1u16 << bits;
        let last: u16 = size - 1;
        proof {
            use_type_invariant(&*tally);
        }
        match Self::id_tally(tally) {
            Some(id) => Ok(SubHshAlg { bits, size, last, id, cell_map: map.clone() }),
            None => Err(AlgError::IdsExhausted),
        }
    }

    /// Builds a descriptor of 4 directory bits over the layout of one cell
    /// of 64 bits, with the next identity of `tally`: the shape of both
    /// built-in algorithms.
    pub fn of_one_cell(tally: &mut IdTally) -> (r: Result<Self, AlgError>)
        ensures
            match r {
                Ok(alg) => {
                    &&& old(tally).issued() < i64::MAX
                    &&& alg.spec_bits() == 4
                    &&& alg.spec_id() == next_identity(old(tally).issued())
                    &&& alg.spec_cell_map().widths() == seq![64u8]
                    &&& final(tally).issued() == alg.spec_id()
                },
                Err(e) => {
                    &&& e == AlgError::IdsExhausted
                    &&& old(tally).issued() == i64::MAX
                    &&& final(tally).issued() == old(tally).issued()
                },
            },
    {
        let widths: Arc<Vec<u8>> = Arc::new(vec![64u8]);
        proof {
            assert(widths@ == seq![64u8]);
            assert(widths_sum(widths@, 1) == widths_sum(widths@, 0) + widths@[0]);
        }
        match BitCellMap::new(&widths) {
            Ok(map) => Self::new(4, &Arc::new(map), tally),
            Err(_) => Err(AlgError::IdsExhausted),
        }
    }

    /// Whether `alg` is this algorithm: whether the identities agree,
    /// whatever the bits and the layouts are.
    pub fn same_alg(&self, alg: &Arc<SubHshAlg>) -> (same: bool)
        ensures
            same == (self.spec_id() == alg.spec_id()),
    {
        alg.id == self.id
    }
}

impl ISubHshAlg for SubHshAlg {
    closed spec fn spec_bits(&self) -> u8 {
        self.bits
    }

    closed spec fn spec_id(&self) -> i64 {
        self.id
    }

    closed spec fn spec_cell_map(&self) -> BitCellMap {
        *self.cell_map
    }

    fn dir_size(&self) -> (size: u16) {
        proof {
            use_type_invariant(self);
        }
        self.size
    }

    fn dir_last(&self) -> (last: u16) {
        proof {
            use_type_invariant(self);
        }
        self.last
    }

    fn id(&self) -> (id: i64) {
        self.id
    }

    fn get_cell_map(&self) -> (map: &Arc<BitCellMap>) {
        &self.cell_map
    }

    fn sub_hsh(&self, raw_id: u64, depth: u8) -> (index: u8) {
        proof {
            use_type_invariant(self);
        }
        let bits = self.bits;
        assert(bits * depth <= 2550) by (nonlinear_arith)
            requires
                bits <= 10,
                depth <= 255,
        ;
        let shift: u16 = bits as u16 * depth as u16;
        if shift >= 64 {
            0
        } else {
            let byte: u8 = #[verifier::truncate]
            (((raw_id >> shift) & 0xff) as u8);
            let mask: u8 = #[verifier::truncate]
            (((self.last as u64) & 0xff) as u8);
            byte & mask
        }
    }
}

/// A directory of at most `MAX_BIT` bits has between 1 and 1024 children.
pub proof fn lemma_dir_size_values(bits: u8)
    requires
        bits <= MAX_BIT,
    ensures
        1 <= dir_size_of(bits) <= 1024,
        bits == 0 ==> dir_size_of(bits) == 1,
        bits == 4 ==> dir_size_of(bits) == 16,
        bits == 8 ==> dir_size_of(bits) == 256,
        bits == 10 ==> dir_size_of(bits) == 1024,
{
    lemma2_to64();
}

/// A directory index lies inside the directory.
pub proof fn law_sub_hsh_in_directory(bits: u8, raw_id: u64, depth: u8)
    requires
        bits <= MAX_BIT,
    ensures
        sub_hsh_of(bits, raw_id, depth) < dir_size_of(bits),
{
    lemma_dir_size_values(bits);
    if bits * depth < 64 {
        let byte = ((raw_id >> ((bits * depth) as u64)) & 0xff) as u8;
        let last = (dir_size_of(bits) - 1) as u64;
        let mask = (last & 0xff) as u8;
        assert(last & 0xff <= last) by (bit_vector);
        assert(byte & mask <= mask) by (bit_vector);
    }
}

/// A directory index is a digit of the raw identifier: the digit at place
/// `depth` in base `2^bits`, or its lowest 8 bits where a digit is wider
/// than a byte.
pub proof fn law_sub_hsh_is_a_digit(bits: u8, raw_id: u64, depth: u8)
    requires
        bits <= MAX_BIT,
        bits * depth < 64,
    ensures
        sub_hsh_of(bits, raw_id, depth) == (raw_id as nat / pow2((bits * depth) as nat)) % pow2(
            if bits < 8 {
                bits as nat
            } else {
                8
            },
        ),
{
    let shift = (bits * depth) as u64;
    let x = raw_id >> shift;
    let width: nat = if bits < 8 {
        bits as nat
    } else {
        8
    };
    let last = (dir_size_of(bits) - 1) as u64;
    let low = low_bits_mask(width) as u64;
    lemma2_to64();
    lemma_dir_size_values(bits);
    lemma_u64_shr_is_div(raw_id, shift);
    lemma_u64_low_bits_mask_is_mod(x, width);
    assert(last & 0xff == low) by {
        if bits <= 8 {
            assert(last & 0xff == last) by (bit_vector)
                requires
                    last <= 255,
            ;
        } else {
            assert(511u64 & 0xff == 255) by (bit_vector);
            assert(1023u64 & 0xff == 255) by (bit_vector);
        }
    }
    assert((((x & 0xff) as u8) & (low as u8)) == x & low) by (bit_vector)
        requires
            low <= 255,
    ;
}

/// Identities come out strictly increasing: of two draws from one
/// counter, the later is the larger, so no two are equal.
pub proof fn law_identities_strictly_increase(start: int, j: nat, k: nat)
    requires
        j < k,
    ensures
        start <= identity_after(start, j) < identity_after(start, k),
    decreases k,
{
    if j == 0 {
        if k > 1 {
            law_identities_strictly_increase(start, 0, (k - 1) as nat);
        }
    } else {
        if j < k - 1 {
            law_identities_strictly_increase(start, j, (k - 1) as nat);
        } else {
            law_identities_strictly_increase(start, (j - 1) as nat, j);
        }
    }
}

} // verus!
