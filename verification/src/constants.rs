//! The fixed sizes of the transaction statement and of the deployed pool.

use vstd::prelude::*;

verus! {

/// The number of notes that a transaction spends.
pub const N_INS: usize = 2;

/// The number of notes that a transaction creates.
pub const N_OUTS: usize = 2;

/// The number of bits that an amount may take.
pub const MAX_AMOUNT_BITS: usize = 248;

/// The height of the tree of commitments.
pub const MERKLE_TREE_LEVEL: usize = 26;

/// The empty leaf of the tree of commitments, in decimal.
pub const ZERO_VALUE: &'static str =
    "18688842432741139442778047327644092677418528270738216181718229581494125774932";

} // verus!
