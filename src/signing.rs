//! Signing identity: secp256k1 ECDSA key pairs made from node key bytes.
use vstd::prelude::*;
use crate::error::KeyError;
use crate::primitives::{
    ecdsa_accepts, ecdsa_public_key, ecdsa_signature, ecdsa_well_formed, secp256k1_public_key,
    secp256k1_sign, secp256k1_verify,
};

verus! {

/// A signing key and its verifying key (33-byte compressed SEC1).
#[derive(Clone, Copy, Debug)]
pub struct SigningKeyPair {
    pub signing_key: [u8; 32],
    pub verifying_key: [u8; 33],
}

/// The key pair whose signing key is the node's private key bytes.
pub fn signing_key_pair(node_key: &[u8; 32]) -> (r: Result<SigningKeyPair, KeyError>)
    ensures
        match ecdsa_public_key(node_key@) {
            Some(vk) => r matches Ok(p) && p.signing_key@ == node_key@ && p.verifying_key@ == vk,
            None => r == Err::<SigningKeyPair, KeyError>(KeyError::DerivationFailed),
        },
{
    match secp256k1_public_key(node_key) {
        Ok(vk) => Ok(SigningKeyPair { signing_key: *node_key, verifying_key: vk }),
        Err(_) => Err(KeyError::DerivationFailed),
    }
}

/// The signature of `message` under `signing_key`; it verifies under the
/// matching verifying key.
pub fn sign(signing_key: &[u8; 32], message: &[u8]) -> (r: Result<Vec<u8>, KeyError>)
    ensures
        match ecdsa_public_key(signing_key@) {
            Some(vk) => r matches Ok(s) && s@ == ecdsa_signature(signing_key@, message@)
                && ecdsa_well_formed(vk, s@) && ecdsa_accepts(vk, message@, s@),
            None => r == Err::<Vec<u8>, KeyError>(KeyError::DerivationFailed),
        },
{
    match secp256k1_sign(signing_key, message) {
        Ok(s) => Ok(s),
        Err(_) => Err(KeyError::DerivationFailed),
    }
}

/// Whether `signature` over `message` verifies under `verifying_key`;
/// encodings that do not parse are refused with `MalformedSignature`.
pub fn verify(verifying_key: &[u8], message: &[u8], signature: &[u8]) -> (r: Result<bool, KeyError>)
    ensures
        if ecdsa_well_formed(verifying_key@, signature@) {
            r == Ok::<bool, KeyError>(ecdsa_accepts(verifying_key@, message@, signature@))
        } else {
            r == Err::<bool, KeyError>(KeyError::MalformedSignature)
        },
{
    match secp256k1_verify(verifying_key, message, signature) {
        Some(b) => Ok(b),
        None => Err(KeyError::MalformedSignature),
    }
}

} // verus!
