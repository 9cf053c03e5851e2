use num_traits::FromPrimitive;
use std::num::Wrapping;
use vstd::prelude::*;

verus! {

/// The fixed seed constant: what a zero seed stands for, and what every
/// step adds in.
pub const BUD: u64 = 10007;

/// The two accumulators of the generator.
#[derive(Clone, Copy, Debug, PartialEq, Eq, Structural)]
pub struct PrngState {
    pub lo: u64,
    pub hi: u64,
}

/// Why an operation of the generator did nothing.
#[derive(Clone, Copy, Debug, PartialEq, Eq, Structural)]
pub enum PrngError {
    /// `pop` found no saved state.
    StackUnderflow,
}

/// `x` rotated left by 17 bits.
pub open spec fn rotl17(x: u64) -> u64 {
    (x << 17) | (x >> 47)
}

/// `x` rotated right by 17 bits.
pub open spec fn rotr17(x: u64) -> u64 {
    (x >> 17) | (x << 47)
}

/// The state that seeding with `v` gives: `v` and its complement, the seed
/// constant and its complement for a zero `v`.
pub open spec fn seeded(v: u64) -> PrngState {
    if v != 0 {
        PrngState { lo: v, hi: !v }
    } else {
        PrngState { lo: BUD, hi: !BUD }
    }
}

/// The state after one step; its `hi` is the number that the step hands out.
/// All sums wrap at 64 bits.
pub open spec fn stepped(s: PrngState) -> PrngState {
    let hi = vstd::wrapping::u64_specs::wrapping_add(
        vstd::wrapping::u64_specs::wrapping_add(rotl17(s.hi), rotr17(s.hi)),
        s.lo,
    );
    let lo = vstd::wrapping::u64_specs::wrapping_add(
        s.lo,
        vstd::wrapping::u64_specs::wrapping_add(hi, BUD),
    );
    PrngState { lo, hi }
}

/// `num_traits::FromPrimitive::from_u64` at `Wrapping<u64>`, the wrapped
/// number handed back bare. The conversion first takes `n` to `u64`, which
/// keeps every `n`, then wraps it: the result is always `Some(n)`.
#[verifier::external_body]
fn wrapping_from_u64(n: u64) -> (r: Option<u64>)
    ensures
        r == Some(n),
{
    Wrapping::<u64>::from_u64(n).map(|w| w.0)
}

/// A deterministic mixing generator: two accumulators and a stack of saved
/// accumulator pairs. It draws on nothing outside itself.
pub struct FastPrng {
    lo: u64,
    hi: u64,
    prng_stack: Vec<PrngState>,
}

impl FastPrng {
    /// The current accumulators.
    pub closed spec fn state(&self) -> PrngState {
        PrngState { lo: self.lo, hi: self.hi }
    }

    /// The saved accumulator pairs, oldest first.
    pub closed spec fn saved(&self) -> Seq<PrngState> {
        self.prng_stack@
    }

    /// A generator seeded with the seed constant, with nothing saved.
    pub fn new() -> (prng: Self)
        ensures
            prng.state() == seeded(0),
            prng.saved() == Seq::<PrngState>::empty(),
    {
        FastPrng { lo: BUD, hi: !BUD, prng_stack: Vec::new() }
    }

    /// Reseeds with `seed`; a zero seed stands for the seed constant.
    pub fn seed(&mut self, seed: u64)
        ensures
            final(self).state() == seeded(seed),
            final(self).saved() == old(self).saved(),
    {
        if 0 != seed {
            self.lo = wrapping_from_u64(seed).unwrap();
            self.hi = wrapping_from_u64(!seed).unwrap();
        } else {
            self.lo = BUD;
            self.hi = !BUD;
        }
    }

    /// Saves the current state, then reseeds with `seed`.
    pub fn push(&mut self, seed: u64)
        ensures
            final(self).state() == seeded(seed),
            final(self).saved() == old(self).saved().push(old(self).state()),
    {
        self.prng_stack.push(PrngState { lo: self.lo, hi: self.hi });
        self.seed(seed);
    }

    /// Restores the state saved last and drops it from the stack. With
    /// nothing saved it changes nothing and reports the underflow.
    pub fn pop(&mut self) -> (r: Result<(), PrngError>)
        ensures
            r is Ok <==> old(self).saved().len() > 0,
            r is Ok ==> final(self).state() == old(self).saved().last() && final(self).saved()
                == old(self).saved().drop_last(),
            r is Err ==> r == Err::<(), PrngError>(PrngError::StackUnderflow) && final(self).state()
                == old(self).state() && final(self).saved() == old(self).saved(),
    {
        match self.prng_stack.pop() {
            Some(inst) => {
                self.lo = wrapping_from_u64(inst.lo).unwrap();
                self.hi = wrapping_from_u64(inst.hi).unwrap();
                Ok(())
            },
            None => Err(PrngError::StackUnderflow),
        }
    }

    /// Forgets every saved state; the accumulators stay.
    pub fn clear_stack(&mut self)
        ensures
            final(self).state() == old(self).state(),
            final(self).saved() == Seq::<PrngState>::empty(),
    {
        self.prng_stack.clear();
    }

    /// Takes one step and hands out the new `hi`.
    pub fn u64(&mut self) -> (out: u64)
        ensures
            final(self).state() == stepped(old(self).state()),
            out == stepped(old(self).state()).hi,
            final(self).saved() == old(self).saved(),
    {
        let left: u64 = (self.hi << 17) | (self.hi >> 47);
        let right: u64 = (self.hi >> 17) | (self.hi << 47);
        self.hi = left.wrapping_add(right).wrapping_add(self.lo);
        self.lo = self.lo.wrapping_add(self.hi.wrapping_add(BUD));
        self.hi
    }
}

/// The two rotations move each bit by 17 places and lose none: bit `b` of
/// the word rotated left is bit `b - 17` of the word, counted round the
/// word, and bit `b` of the word rotated right is bit `b + 17`.
pub proof fn law_rotations_keep_bits(x: u64, b: u64)
    requires
        b < 64,
    ensures
        ((rotl17(x) >> b) & 1) == ((x >> (((b + 47) % 64) as u64)) & 1),
        ((rotr17(x) >> b) & 1) == ((x >> (((b + 17) % 64) as u64)) & 1),
{
    assert(((((x << 17) | (x >> 47)) >> b) & 1) == ((x >> (((b + 47) % 64) as u64)) & 1))
        by (bit_vector)
        requires
            b < 64,
    ;
    assert(((((x >> 17) | (x << 47)) >> b) & 1) == ((x >> (((b + 17) % 64) as u64)) & 1))
        by (bit_vector)
        requires
            b < 64,
    ;
}

} // verus!
