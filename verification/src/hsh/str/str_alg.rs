use crate::hsh::bit_cell_map::{bit_is_set, BitCellMap};
use crate::hsh::alg_registry::AlgRegistry;
use crate::hsh::sub_hsh_alg::{next_identity, AlgError, ISubHshAlg, IdTally, SubHshAlg};
use crate::prng::fast_prng::{seeded, stepped, FastPrng, PrngState};
use std::sync::Arc;
use vstd::prelude::*;

verus! {

/// The odd constant that every step's multiplier is a multiple of.
pub const SEVEN_BITS: u64 = 127;

/// Number of facets that the algorithm can derive from one string.
pub const FACETS: u8 = 8;

/// `x` with its 64 bits in the opposite order.
pub open spec fn reversed_bits(x: u64) -> u64 {
    let a = ((x >> 1) & 0x5555_5555_5555_5555) | ((x & 0x5555_5555_5555_5555) << 1);
    let b = ((a >> 2) & 0x3333_3333_3333_3333) | ((a & 0x3333_3333_3333_3333) << 2);
    let c = ((b >> 4) & 0x0f0f_0f0f_0f0f_0f0f) | ((b & 0x0f0f_0f0f_0f0f_0f0f) << 4);
    let d = ((c >> 8) & 0x00ff_00ff_00ff_00ff) | ((c & 0x00ff_00ff_00ff_00ff) << 8);
    let e = ((d >> 16) & 0x0000_ffff_0000_ffff) | ((d & 0x0000_ffff_0000_ffff) << 16);
    (e >> 32) | (e << 32)
}

/// What a character adds to the accumulator: its number, bit-reversed
/// under `bkbit`, then complemented under `inv`.
pub open spec fn char_term(c: char, inv: bool, bkbit: bool) -> u64 {
    let v = if bkbit {
        reversed_bits(c as u64)
    } else {
        c as u64
    };
    if inv {
        !v
    } else {
        v
    }
}

/// The accumulator and the generator in the middle of a walk.
pub struct MixState {
    pub acc: u64,
    pub rng: PrngState,
}

/// One step of the walk, the `dist`-th counted from 1: add the term,
/// multiply by `127 * dist`, reseed the generator from the accumulator on
/// steps 1, 5, 9, ..., and add the generator's next number. All
/// arithmetic wraps at 64 bits.
pub open spec fn mix_step(m: MixState, term: u64, dist: nat) -> MixState {
    let sum = vstd::wrapping::u64_specs::wrapping_add(m.acc, term);
    let prod = vstd::wrapping::u64_specs::wrapping_mul(
        sum,
        vstd::wrapping::u64_specs::wrapping_mul(SEVEN_BITS, dist as u64),
    );
    let rng = stepped(
        if (dist - 1) % 4 == 0 {
            seeded(prod)
        } else {
            m.rng
        },
    );
    MixState { acc: vstd::wrapping::u64_specs::wrapping_add(prod, rng.hi), rng }
}

/// Index of the character read at step `dist` of a walk over `len`
/// characters: from the end backward under `bkd`, from the start otherwise.
pub open spec fn visited_index(len: nat, bkd: bool, dist: nat) -> int {
    if bkd {
        len - dist
    } else {
        dist - 1
    }
}

/// Number of steps of a walk over `len` characters: as many as it takes
/// from the starting end to the midpoint `len / 2`, the midpoint included.
pub open spec fn walk_steps(len: nat, bkd: bool) -> nat {
    if bkd {
        (len - len / 2) as nat
    } else {
        len / 2 + 1
    }
}

/// The walk over `s` after `n` steps. It starts from a zero accumulator
/// and a generator seeded with 0.
pub open spec fn mix_walk(s: Seq<char>, bkd: bool, inv: bool, bkbit: bool, n: nat) -> MixState
    decreases n,
{
    if n == 0 {
        MixState { acc: 0, rng: seeded(0) }
    } else {
        mix_step(
            mix_walk(s, bkd, inv, bkbit, (n - 1) as nat),
            char_term(s[visited_index(s.len(), bkd, n)], inv, bkbit),
            n,
        )
    }
}

/// The hash of a non-empty `s` under the three switches: the accumulator
/// at the end of the walk.
pub open spec fn base_id_of(s: Seq<char>, bkd: bool, inv: bool, bkbit: bool) -> u64 {
    mix_walk(s, bkd, inv, bkbit, walk_steps(s.len(), bkd)).acc
}

/// Facet `facet` of `s`. Even facets walk backward, facets 2, 3, 6 and 7
/// complement the characters, facets 4 to 7 reverse their bits. The empty
/// string, and a facet past the eighth, give 0.
pub open spec fn make_id_of(s: Seq<char>, facet: u8) -> u64 {
    if s.len() == 0 || facet >= FACETS {
        0
    } else {
        base_id_of(s, facet % 2 == 0, (facet / 2) % 2 == 1, facet >= 4)
    }
}

/// `x` with its 64 bits in the opposite order.
pub fn reverse_bits(x: u64) -> (r: u64)
    ensures
        r == reversed_bits(x),
{
    let a: u64 = ((x >> 1) & 0x5555_5555_5555_5555) | ((x & 0x5555_5555_5555_5555) << 1);
    let b: u64 = ((a >> 2) & 0x3333_3333_3333_3333) | ((a & 0x3333_3333_3333_3333) << 2);
    let c: u64 = ((b >> 4) & 0x0f0f_0f0f_0f0f_0f0f) | ((b & 0x0f0f_0f0f_0f0f_0f0f) << 4);
    let d: u64 = ((c >> 8) & 0x00ff_00ff_00ff_00ff) | ((c & 0x00ff_00ff_00ff_00ff) << 8);
    let e: u64 = ((d >> 16) & 0x0000_ffff_0000_ffff) | ((d & 0x0000_ffff_0000_ffff) << 16);
    (e >> 32) | (e << 32)
}

/// Bit `b` of the reversed word is bit `63 - b` of the word.
pub proof fn law_reversed_bits_mirror(x: u64, b: u64)
    requires
        b < 64,
    ensures
        bit_is_set(reversed_bits(x), b) == bit_is_set(x, (63 - b) as u64),
{
    assert(((reversed_bits(x) >> b) & 1 == 1) == ((x >> ((63 - b) as u64)) & 1 == 1))
        by (bit_vector)
        requires
            b < 64,
    ;
}

/// The characters of `s`, in order.
pub fn collect_chars(s: &str) -> (chars: Vec<char>)
    ensures
        chars@ == s@,
{
    let mut chars: Vec<char> = Vec::new();
    for c in it: s.chars()
        invariant
            chars@ == it.seq().take(it.index() as int),
            it.seq() == s@,
    {
        chars.push(c);
    }
    chars
}

/// The string algorithm: derives up to eight facets of 64 bits from a
/// string, and indexes them as its descriptor says.
pub struct StrAlg {
    sub: Arc<SubHshAlg>,
}

impl StrAlg {
    /// Builds the string algorithm, with the next identity of `tally`.
    pub fn singleton(tally: &mut IdTally) -> (r: Result<Self, AlgError>)
        ensures
            match r {
                Ok(alg) => {
                    &&& old(tally).issued() < i64::MAX
                    &&& alg.spec_bits() == 4
                    &&& alg.spec_id() == next_identity(old(tally).issued())
                    &&& alg.spec_cell_map().widths() == seq![64u8]
                    &&& final(tally).issued() == alg.spec_id()
                },
                Err(e) => {
                    &&& e == AlgError::IdsExhausted
                    &&& old(tally).issued() == i64::MAX
                    &&& final(tally).issued() == old(tally).issued()
                },
            },
    {
        match SubHshAlg::of_one_cell(tally) {
            Ok(sub) => Ok(StrAlg { sub: Arc::new(sub) }),
            Err(e) => Err(e),
        }
    }

    /// The string algorithm of `algs`.
    pub fn inst(algs: &AlgRegistry) -> (alg: &Arc<StrAlg>)
        ensures
            **alg == algs.spec_str_alg(),
    {
        algs.str_alg()
    }

    /// The descriptor that the algorithm indexes by.
    pub closed spec fn spec_sub_alg(&self) -> SubHshAlg {
        *self.sub
    }

    /// The descriptor that the algorithm indexes by.
    pub fn sub_alg(&self) -> (sub: &Arc<SubHshAlg>)
        ensures
            **sub == self.spec_sub_alg(),
    {
        &self.sub
    }

    /// The hash of a non-empty `str` under the three switches.
    fn base_id(str: &str, bkd: bool, inv: bool, bkbit: bool) -> (id: u64)
        requires
            str@.len() > 0,
        ensures
            id == base_id_of(str@, bkd, inv, bkbit),
    {
        let chars = collect_chars(str);
        let len: usize = chars.len();
        let half: usize = len / 2;
        let steps: usize = if bkd {
            len - half
        } else {
            half + 1
        };
        let mut prng = FastPrng::new();
        let mut id: u64 = 0;
        prng.push(0);
        let mut dist: usize = 0;
        while dist < steps
            invariant
                dist <= steps <= len,
                len == chars@.len(),
                chars@ == str@,
                steps == walk_steps(len as nat, bkd),
                (MixState { acc: id, rng: prng.state() }) == mix_walk(
                    str@,
                    bkd,
                    inv,
                    bkbit,
                    dist as nat,
                ),
                prng.saved().len() == 1,
            decreases steps - dist,
        {
            dist = dist + 1;
            let c: usize = if bkd {
                len - dist
            } else {
                dist - 1
            };
            let raw: u64 = chars[c] as u64;
            let ch: u64 = if bkbit {
                reverse_bits(raw)
            } else {
                raw
            };
            if inv {
                id = id.wrapping_add(!ch);
            } else {
                id = id.wrapping_add(ch);
            }
            id = id.wrapping_mul(SEVEN_BITS.wrapping_mul(dist as u64));
            if (dist - 1) % 4 == 0 {
                prng.seed(id);
            }
            id = id.wrapping_add(prng.u64());
        }
        let _ = prng.pop();
        id
    }
}

impl ISubHshAlg for StrAlg {
    open spec fn spec_bits(&self) -> u8 {
        self.spec_sub_alg().spec_bits()
    }

    open spec fn spec_id(&self) -> i64 {
        self.spec_sub_alg().spec_id()
    }

    open spec fn spec_cell_map(&self) -> BitCellMap {
        self.spec_sub_alg().spec_cell_map()
    }

    fn dir_size(&self) -> (size: u16) {
        self.sub.dir_size()
    }

    fn dir_last(&self) -> (last: u16) {
        self.sub.dir_last()
    }

    fn id(&self) -> (id: i64) {
        self.sub.id()
    }

    fn get_cell_map(&self) -> (map: &Arc<BitCellMap>) {
        self.sub.get_cell_map()
    }

    fn sub_hsh(&self, raw_id: u64, depth: u8) -> (index: u8) {
        self.sub.sub_hsh(raw_id, depth)
    }
}

/// A hash-tree algorithm that derives its keys from strings.
pub trait IStrAlg: ISubHshAlg {
    /// Facet `facet` of `str`.
    fn make_id(str: &str, facet: u8) -> (id: u64)
        ensures
            id == make_id_of(str@, facet),
    ;
}

impl IStrAlg for StrAlg {
    fn make_id(str: &str, facet: u8) -> (id: u64) {
        if str.is_empty() {
            return 0;
        }
        match facet {
            0 => Self::base_id(str, true, false, false),
            1 => Self::base_id(str, false, false, false),
            2 => Self::base_id(str, true, true, false),
            3 => Self::base_id(str, false, true, false),
            4 => Self::base_id(str, true, false, true),
            5 => Self::base_id(str, false, false, true),
            6 => Self::base_id(str, true, true, true),
            7 => Self::base_id(str, false, true, true),
            _ => 0,
        }
    }
}

/// The empty string hashes to 0 under every facet.
pub proof fn law_empty_string_hashes_to_zero(facet: u8)
    ensures
        make_id_of(Seq::<char>::empty(), facet) == 0,
{
}

/// A facet depends on nothing but the characters and the facet's number:
/// the same string under the same facet gives the same value, whenever
/// and wherever it is hashed.
pub proof fn law_make_id_is_deterministic(s1: Seq<char>, s2: Seq<char>, facet: u8)
    requires
        s1 =~= s2,
    ensures
        make_id_of(s1, facet) == make_id_of(s2, facet),
{
}

} // verus!
