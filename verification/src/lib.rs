//! Building blocks for a minimal append-only chain of signed, hash-linked
//! blocks.
//!
//! A [`Chain`] starts at a fixed genesis block and grows by appending
//! [`Block`]s. Every block carries a [`hash::Hash`] that binds it to the hash
//! of its predecessor, to an Ed25519 signature and to the SHA-256 digest of
//! its data, so that a later change to any of them is found by verification.
//!
//! The library is verified with Verus. SHA-256 and Ed25519 come from OpenSSL
//! and are trusted: [`crypto`] holds the calls and states what is relied upon.
//! Everything else is proved, and [`theorems`] holds what follows for blocks
//! and chains as they are made and as they are tampered with.

use vstd::prelude::*;

pub mod block;
pub mod chain;
pub mod crypto;
pub mod error;
pub mod hash;
pub mod key;
pub mod prelude;
pub mod theorems;

pub use block::{Block, BlockData, Ownership};
pub use chain::Chain;
pub use key::{KeyPair, PublicKey};

verus! {

/// The protocol version that serialized blocks carry.
pub const PROTO_VERSION: u8 = 1;

/// The 32 bytes of the genesis hash.
pub const DEFAULT_GENESIS: [u8; 32] = [
    66, 108, 111, 111, 100, 121, 32, 103, 101, 110, 101, 115, 105, 115, 32, 98, 108, 111, 99, 107,
    32, 109, 101, 115, 115, 97, 103, 101, 115, 46, 46, 46,
];

} // verus!
