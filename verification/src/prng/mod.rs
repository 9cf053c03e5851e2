pub mod fast_prng;
