//! A stored key record: the strength, mnemonic phrase and key path of one identity.
use vstd::prelude::*;
use crate::error::KeyError;
use crate::path::{derive_node, node_key, DerivationPath};
use crate::primitives::bip39_valid;
use crate::seed::new_mnemonic;

verus! {

/// The strength, mnemonic phrase and key path of one identity.
#[derive(Debug, Clone)]
pub struct PrivKey {
    pub strength: String,
    pub phrase: String,
    pub key_path: String,
}

impl Default for PrivKey {
    fn default() -> (r: PrivKey)
        ensures
            r.strength@.len() == 0,
            r.phrase@.len() == 0,
            r.key_path@.len() == 0,
    {
        PrivKey { strength: String::new(), phrase: String::new(), key_path: String::new() }
    }
}

impl PrivKey {
    pub fn set_strength(&mut self, strength: String)
        ensures
            final(self).strength == strength,
            final(self).phrase == old(self).phrase,
            final(self).key_path == old(self).key_path,
    {
        self.strength = strength;
    }

    pub fn set_phrase(&mut self, phrase: String)
        ensures
            final(self).phrase == phrase,
            final(self).strength == old(self).strength,
            final(self).key_path == old(self).key_path,
    {
        self.phrase = phrase;
    }

    pub fn set_key_path(&mut self, key_path: String)
        ensures
            final(self).key_path == key_path,
            final(self).strength == old(self).strength,
            final(self).phrase == old(self).phrase,
    {
        self.key_path = key_path;
    }

    /// The record for `key_path`: its phrase is `stored_phrase` where that is
    /// not empty (a phrase kept from before), else a fresh random mnemonic.
    pub fn get_mnemonic(key_path: &str, stored_phrase: &str) -> (r: PrivKey)
        ensures
            r.key_path@ == key_path@,
            r.strength@.len() == 0,
            stored_phrase@.len() > 0 ==> r.phrase@ == stored_phrase@,
            stored_phrase@.len() == 0 ==> bip39_valid(r.phrase@),
    {
        let mut priv_key = PrivKey::default();
        priv_key.set_key_path(key_path.to_string());
        if !stored_phrase.is_empty() {
            priv_key.set_phrase(stored_phrase.to_string());
            return priv_key;
        }
        priv_key.set_phrase(new_mnemonic());
        priv_key
    }

    /// The private key bytes of the master node of `seed`.
    pub fn get_root_key(seed: &[u8; 64]) -> (r: Result<[u8; 32], KeyError>)
        ensures
            match node_key(seed@, Seq::empty()) {
                Ok(k) => r matches Ok(x) && x@ == k,
                Err(e) => r == Err::<[u8; 32], KeyError>(e),
            },
    {
        let root = DerivationPath { segments: Vec::new() };
        derive_node(seed, &root)
    }
}

} // verus!
