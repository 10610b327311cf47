//! A verifiable chain of trust among decentralized identifiers (DIDs)
//! anchored on a Sidetree-style ledger.
//!
//! A leaf DID's document is trusted only if it is attested by a controller
//! DID one level up, recursively, until the chain terminates at a recognized
//! root identity.  This crate holds the trust-chain model (subject and
//! controller capabilities), the key-commitment scheme binding off-chain keys
//! to on-chain commitments, the chain-walking resolution and verification
//! algorithm, and the structural graph check that a set of resolved chains
//! forms a tree.

pub mod commitment;
pub mod controller;
pub mod crypto;
pub mod document;
pub mod errors;
pub mod graph;
pub mod key_manager;
pub mod redactable_signature;
pub mod resolver;
pub mod subject;
pub mod verification;
