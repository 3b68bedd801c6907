//! A Diffie-Hellman key holder: a seed, an optional password and a default path.
use vstd::prelude::*;
use vstd::string::StringSliceAdditionalSpecFns;
use crate::account::exchange_key_at;
use crate::error::KeyError;
use crate::exchange::{exchange_key_pair, exchange_pair_of, ExchangeKeyPair};
use crate::path::node_key_at;
use crate::primitives::{bip39_seed, bip39_valid};
use crate::seed::{new_mnemonic, new_seed};

verus! {

/// A seed with the password its mnemonic is read under and the path of its key.
pub struct DHKey {
    pub password: Option<String>,
    pub seed: [u8; 64],
    pub key_path: String,
}

/// The passphrase that an optional password stands for.
pub open spec fn password_of(password: Option<String>) -> Seq<char> {
    match password {
        Some(p) => p@,
        None => Seq::empty(),
    }
}

impl DHKey {
    /// A holder of `seed` with no password and the key path `m/44'/0'/0'/0/0'`.
    pub fn from(seed: [u8; 64]) -> (r: DHKey)
        ensures
            r.password is None,
            r.seed == seed,
            r.key_path@ == "m/44'/0'/0'/0/0'"@,
    {
        DHKey { password: None, seed, key_path: "m/44'/0'/0'/0/0'".to_string() }
    }

    /// The seed of a fresh random mnemonic under this holder's password.
    pub fn get_seed(&self) -> (r: [u8; 64])
        ensures
            exists|p: Seq<char>| bip39_valid(p) && r@ == bip39_seed(p, password_of(self.password)),
    {
        match &self.password {
            Some(p) => new_seed(Some(p.as_str())),
            None => new_seed(None),
        }
    }

    /// The Diffie-Hellman key pair at `child_path` under this holder's seed.
    pub fn get_key(&self, child_path: &str) -> (r: Result<ExchangeKeyPair, KeyError>)
        ensures
            match node_key_at(self.seed@, child_path.spec_bytes()) {
                Ok(k) => r matches Ok(p) && exchange_pair_of(k, p),
                Err(e) => r == Err::<ExchangeKeyPair, KeyError>(e),
            },
    {
        exchange_key_at(&self.seed, child_path)
    }

    /// A fresh random mnemonic phrase.
    pub fn get_mnemonic() -> (r: String)
        ensures
            bip39_valid(r@),
    {
        new_mnemonic()
    }

    /// The Diffie-Hellman key pair whose secret is the given 32 bytes.
    pub fn sedd_to_dh_key(seed: [u8; 32]) -> (r: ExchangeKeyPair)
        ensures
            r.secret == seed,
            exchange_pair_of(seed@, r),
    {
        exchange_key_pair(&seed)
    }
}

} // verus!
