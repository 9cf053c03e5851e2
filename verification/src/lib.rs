//! Faceted identity and indexing: bit-cell layouts, hash-tree algorithm
//! descriptors, numeric and string-derived identifiers, and a store of
//! identified objects keyed by raw identifier.

pub mod hsh;
pub mod prng;
