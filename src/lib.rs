mod poseidon;
mod runs;
mod tree;
mod zero_values;

pub use poseidon::poseidon_hash;
pub use runs::{lemma_capacity, lemma_deterministic, lemma_recent_roots_known, lemma_run_len, lemma_zero_never_known, no_leaf_rejected, root_of, run};
pub use tree::{climb, empty_root, insert_step, is_blank, known, next_slot, PoseidonMerkleTree, PoseidonMerkleTreeError, TreeView};
pub use zero_values::{zero_value, zeros, MAX_LEVELS};
