//! Seeds: BIP39 mnemonics and the seeds they yield under a passphrase.
use vstd::prelude::*;
use crate::error::KeyError;
use crate::primitives::{bip39_from_entropy, bip39_phrase_of, bip39_seed, bip39_to_seed, bip39_valid, os_entropy};

verus! {

/// The passphrase that an optional one stands for: none is the empty passphrase.
pub open spec fn passphrase_of(passphrase: Option<&str>) -> Seq<char> {
    match passphrase {
        Some(p) => p@,
        None => Seq::empty(),
    }
}

/// The seed of a mnemonic under a passphrase; a malformed mnemonic is
/// refused with `InvalidMnemonic`.
pub fn seed_from_mnemonic(phrase: &str, passphrase: Option<&str>) -> (r: Result<[u8; 64], KeyError>)
    ensures
        match r {
            Ok(s) => bip39_valid(phrase@) && s@ == bip39_seed(phrase@, passphrase_of(passphrase)),
            Err(e) => !bip39_valid(phrase@) && e == KeyError::InvalidMnemonic,
        },
{
    let empty: &str = "";
    proof {
        reveal_strlit("");
    }
    let pass: &str = match passphrase {
        Some(p) => p,
        None => empty,
    };
    assert(pass@ =~= passphrase_of(passphrase));
    match bip39_to_seed(phrase, pass) {
        Ok(s) => Ok(s),
        Err(_) => Err(KeyError::InvalidMnemonic),
    }
}

/// The mnemonic that encodes the given 32 bytes of entropy.
pub fn mnemonic_from_entropy(entropy: &[u8; 32]) -> (r: String)
    ensures
        r@ == bip39_phrase_of(entropy@),
        bip39_valid(r@),
{
    bip39_from_entropy(entropy)
}

/// A fresh mnemonic drawn from the operating system's random source.
pub fn new_mnemonic() -> (r: String)
    ensures
        bip39_valid(r@),
        exists|e: Seq<u8>| e.len() == 32 && r@ == bip39_phrase_of(e),
{
    let e = os_entropy();
    let r = mnemonic_from_entropy(&e);
    assert(e@.len() == 32 && r@ == bip39_phrase_of(e@));
    r
}

/// The seed of a fresh random mnemonic under the given passphrase.
pub fn new_seed(passphrase: Option<&str>) -> (r: [u8; 64])
    ensures
        exists|p: Seq<char>| bip39_valid(p) && r@ == bip39_seed(p, passphrase_of(passphrase)),
{
    let phrase = new_mnemonic();
    match seed_from_mnemonic(phrase.as_str(), passphrase) {
        Ok(s) => s,
        Err(_) => {
            proof {
                assert(false);
            }
            [0u8; 64]
        },
    }
}

} // verus!
