//! The account: one seed, with path-addressed signing and key exchange.
use vstd::prelude::*;
use vstd::string::StringSliceAdditionalSpecFns;
use crate::error::KeyError;
use crate::exchange::{exchange_key_pair, exchange_pair_of, ExchangeKeyPair};
use crate::path::{derive_node, derive_at, node_key, node_key_at, DerivationPath};
use crate::primitives::{
    bip39_seed, bip39_valid, ecdsa_accepts, ecdsa_public_key, ecdsa_signature, ecdsa_well_formed,
    x25519_public_of,
};
use crate::seed::{new_seed, passphrase_of, seed_from_mnemonic};
use crate::signing::{sign, signing_key_pair, verify, SigningKeyPair};

verus! {

/// The signing key pair at a path text: (signing key, verifying key).
pub open spec fn signing_pair_at(seed: Seq<u8>, text: Seq<u8>) -> Result<(Seq<u8>, Seq<u8>), KeyError> {
    match node_key_at(seed, text) {
        Ok(k) => match ecdsa_public_key(k) {
            Some(vk) => Ok((k, vk)),
            None => Err(KeyError::DerivationFailed),
        },
        Err(e) => Err(e),
    }
}

/// What verifying `signature` over `message` at a path text gives.
pub open spec fn verify_at(seed: Seq<u8>, text: Seq<u8>, message: Seq<u8>, signature: Seq<u8>) -> Result<bool, KeyError> {
    match signing_pair_at(seed, text) {
        Ok((_, vk)) => if ecdsa_well_formed(vk, signature) {
            Ok(ecdsa_accepts(vk, message, signature))
        } else {
            Err(KeyError::MalformedSignature)
        },
        Err(e) => Err(e),
    }
}

/// The exchange key pair at a path text under `seed`.
pub fn exchange_key_at(seed: &[u8; 64], text: &str) -> (r: Result<ExchangeKeyPair, KeyError>)
    ensures
        match node_key_at(seed@, text.spec_bytes()) {
            Ok(k) => r matches Ok(p) && exchange_pair_of(k, p),
            Err(e) => r == Err::<ExchangeKeyPair, KeyError>(e),
        },
{
    let k = derive_at(seed, text)?;
    Ok(exchange_key_pair(&k))
}

/// Holds one seed, the root of every key it hands out.
pub struct Account {
    pub seed: [u8; 64],
}

impl Account {
    /// An account on the seed of a fresh random mnemonic under `password`.
    pub fn new(password: Option<&str>) -> (r: Account)
        ensures
            exists|p: Seq<char>| bip39_valid(p) && r.seed@ == bip39_seed(p, passphrase_of(password)),
    {
        Account { seed: new_seed(password) }
    }

    /// An account on the given seed.
    pub fn from_seed(seed: [u8; 64]) -> (r: Account)
        ensures
            r.seed == seed,
    {
        Account { seed }
    }

    /// An account on the seed of `phrase` under `password`.
    pub fn from_phrase(phrase: &str, password: Option<&str>) -> (r: Result<Account, KeyError>)
        ensures
            match r {
                Ok(a) => bip39_valid(phrase@) && a.seed@ == bip39_seed(phrase@, passphrase_of(password)),
                Err(e) => !bip39_valid(phrase@) && e == KeyError::InvalidMnemonic,
            },
    {
        let seed = seed_from_mnemonic(phrase, password)?;
        Ok(Account { seed })
    }

    /// The private key bytes of the master node.
    pub fn get_root_key(&self) -> (r: Result<[u8; 32], KeyError>)
        ensures
            match node_key(self.seed@, Seq::empty()) {
                Ok(k) => r matches Ok(x) && x@ == k,
                Err(e) => r == Err::<[u8; 32], KeyError>(e),
            },
    {
        let root = DerivationPath { segments: Vec::new() };
        derive_node(&self.seed, &root)
    }

    /// The Diffie-Hellman key pair at `child_path`.
    pub fn sub_dh_key(&self, child_path: &str) -> (r: Result<ExchangeKeyPair, KeyError>)
        ensures
            match node_key_at(self.seed@, child_path.spec_bytes()) {
                Ok(k) => r matches Ok(p) && exchange_pair_of(k, p),
                Err(e) => r == Err::<ExchangeKeyPair, KeyError>(e),
            },
    {
        exchange_key_at(&self.seed, child_path)
    }

    /// The signing key pair at `child_path`.
    pub fn sign_key(&self, child_path: &str) -> (r: Result<SigningKeyPair, KeyError>)
        ensures
            match signing_pair_at(self.seed@, child_path.spec_bytes()) {
                Ok((k, vk)) => r matches Ok(p) && p.signing_key@ == k && p.verifying_key@ == vk,
                Err(e) => r == Err::<SigningKeyPair, KeyError>(e),
            },
    {
        let k = derive_at(&self.seed, child_path)?;
        signing_key_pair(&k)
    }

    /// Signs `message` with the key at `child_path`; the signature is one
    /// that `verify` at the same path accepts.
    pub fn sign(&self, child_path: &str, message: &[u8]) -> (r: Result<Vec<u8>, KeyError>)
        ensures
            match signing_pair_at(self.seed@, child_path.spec_bytes()) {
                Ok((k, vk)) => r matches Ok(s) && s@ == ecdsa_signature(k, message@)
                    && verify_at(self.seed@, child_path.spec_bytes(), message@, s@) == Ok::<bool, KeyError>(true),
                Err(e) => r == Err::<Vec<u8>, KeyError>(e),
            },
    {
        let pair = self.sign_key(child_path)?;
        sign(&pair.signing_key, message)
    }

    /// Checks `signature` over `message` against the verifying key at `child_path`.
    pub fn verify(&self, child_path: &str, message: &[u8], signature: &[u8]) -> (r: Result<bool, KeyError>)
        ensures
            r == verify_at(self.seed@, child_path.spec_bytes(), message@, signature@),
    {
        let pair = self.sign_key(child_path)?;
        verify(pair.verifying_key.as_slice(), message, signature)
    }
}

} // verus!
