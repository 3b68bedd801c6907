//! Hierarchical-deterministic key management: one seed, a tree of child keys
//! addressed by textual derivation paths, each usable for ECDSA signing and
//! for X25519 key agreement.

pub mod error;
pub mod primitives;
pub mod path;
pub mod seed;
pub mod signing;
pub mod exchange;
pub mod account;
pub mod dh;
pub mod phrase;
