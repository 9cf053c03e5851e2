pub mod alg_registry;
pub mod bit_cell_map;
pub mod dash_trie;
pub mod hash_trie;
pub mod id;
pub mod obj;
pub mod str;
pub mod sub_hsh_alg;
