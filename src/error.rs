use vstd::prelude::*;

verus! {

/// The failures that the key-management operations report.
#[derive(Clone, Copy, Debug, PartialEq, Eq, Structural)]
pub enum KeyError {
    /// The mnemonic phrase has the wrong word count, an unknown word or a bad checksum.
    InvalidMnemonic,
    /// The derivation path text does not follow `m/i1'/i2/...`.
    InvalidPath,
    /// The key tree produced no valid key at the requested node.
    DerivationFailed,
    /// A verification key or signature is not a well-formed encoding.
    MalformedSignature,
    /// The peer's exchange key lies outside the valid domain (a low-order point).
    InvalidPeerKey,
}

} // verus!
