//! Cryptographic core of a shielded value-transfer protocol over the BN254
//! scalar field: Poseidon hashing, a paired-insertion Merkle tree and the
//! two-input, two-output transaction statement.

pub mod bindings;
pub mod circuit;
pub mod constants;
pub mod constraints;
pub mod field;
pub mod merkle_gadget;
pub mod merkle_spec;
pub mod merkle_tree;
pub mod poseidon_constants_opt;
pub mod poseidon_gadget;
pub mod poseidon_opt;
pub mod poseidon_tables;
pub mod synthesis;
