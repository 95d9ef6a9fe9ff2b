//! The protocol core of a shielded-asset transaction scheme: notes
//! committed into a fixed-depth Merkle accumulator, one-time nullifiers
//! preventing double spends, pluggable validity predicates governing every
//! note, actions binding each spend to a created note, fixed-arity partial
//! transactions, and their aggregation into globally balanced transactions.

use vstd::prelude::*;

pub mod action;
pub mod api;
pub mod codec;
pub mod error;
pub mod field;
pub mod intent;
pub mod merkle_tree;
pub mod note;
pub mod nullifier;
pub mod shielded_ptx;
pub mod signature;
pub mod token;
pub mod token_swap;
pub mod transaction;
pub mod value_commitment;
pub mod vp;
pub mod vp_bytecode;

verus! {

/// Number of input notes (and of output notes) in every partial transaction.
pub const NUM_NOTE: usize = 2;

/// Depth of the note commitment Merkle tree.
pub const COMMITMENT_TREE_DEPTH: usize = 32;

} // verus!
