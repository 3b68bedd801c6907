//! The cryptographic primitives this library composes, taken from bip32
//! (BIP32 derivation, BIP39 mnemonics, secp256k1 ECDSA through k256),
//! x25519-dalek (X25519) and rand_core (the OS random source).
use bip32::secp256k1::ecdsa::signature::{Signer, Verifier};
use bip32::secp256k1::ecdsa::{Signature, SigningKey, VerifyingKey};
use bip32::{PrivateKey, PublicKey};
use rand_core::RngCore;
use vstd::prelude::*;

verus! {

#[verifier::external_type_specification]
#[verifier::external_body]
pub struct ExBip32Error(bip32::Error);

/// The private key bytes of the node that BIP32 derivation reaches from
/// `seed` along the child numbers `path`; `None` where derivation fails.
pub uninterp spec fn derived_private_key(seed: Seq<u8>, path: Seq<u32>) -> Option<Seq<u8>>;

/// Whether `phrase` is a valid English BIP39 mnemonic.
pub uninterp spec fn bip39_valid(phrase: Seq<char>) -> bool;

/// The BIP39 seed of a valid mnemonic under a passphrase.
pub uninterp spec fn bip39_seed(phrase: Seq<char>, passphrase: Seq<char>) -> Seq<u8>;

/// The English BIP39 mnemonic that encodes 32 bytes of entropy.
pub uninterp spec fn bip39_phrase_of(entropy: Seq<u8>) -> Seq<char>;

/// The compressed SEC1 public key of a secp256k1 secret; `None` for a
/// secret outside the scalar field's valid range.
pub uninterp spec fn ecdsa_public_key(secret: Seq<u8>) -> Option<Seq<u8>>;

/// The deterministic (RFC 6979) ECDSA signature of `message` under `secret`.
pub uninterp spec fn ecdsa_signature(secret: Seq<u8>, message: Seq<u8>) -> Seq<u8>;

/// Whether `key` and `signature` are well-formed encodings (SEC1 point, 64-byte r||s).
pub uninterp spec fn ecdsa_well_formed(key: Seq<u8>, signature: Seq<u8>) -> bool;

/// Whether a well-formed `signature` over `message` verifies under `key`.
pub uninterp spec fn ecdsa_accepts(key: Seq<u8>, message: Seq<u8>, signature: Seq<u8>) -> bool;

/// The X25519 public key of a static secret.
pub uninterp spec fn x25519_public_of(secret: Seq<u8>) -> Seq<u8>;

/// The X25519 shared secret of a static secret and a peer's public key.
pub uninterp spec fn x25519_shared(secret: Seq<u8>, peer: Seq<u8>) -> Seq<u8>;

/// Relies on bip32's `XPrv::derive_from_path`, which walks from the master
/// node of `seed` one child number at a time; the result depends on the
/// seed and child numbers alone.
#[verifier::external_body]
pub(crate) fn bip32_derive(seed: &[u8; 64], path: &Vec<u32>) -> (r: Result<[u8; 32], bip32::Error>)
    ensures
        match r {
            Ok(k) => derived_private_key(seed@, path@) == Some(k@),
            Err(_) => derived_private_key(seed@, path@) is None,
        },
{
    let mut p = bip32::DerivationPath::default();
    p.extend(path.iter().map(|n| bip32::ChildNumber(*n)));
    bip32::XPrv::derive_from_path(seed, &p).map(|k| k.to_bytes())
}

/// Relies on bip32's `Mnemonic::new` (English wordlist, checksum checked)
/// and `Mnemonic::to_seed` (PBKDF2 with the passphrase as salt).
#[verifier::external_body]
pub(crate) fn bip39_to_seed(phrase: &str, passphrase: &str) -> (r: Result<[u8; 64], bip32::Error>)
    ensures
        match r {
            Ok(s) => bip39_valid(phrase@) && s@ == bip39_seed(phrase@, passphrase@),
            Err(_) => !bip39_valid(phrase@),
        },
{
    let m = bip32::Mnemonic::new(phrase, bip32::Language::English)?;
    Ok(*m.to_seed(passphrase).as_bytes())
}

/// Relies on bip32's `Mnemonic::from_entropy`, which encodes the entropy
/// and its checksum as English words; `Mnemonic::new` accepts the result.
#[verifier::external_body]
pub(crate) fn bip39_from_entropy(entropy: &[u8; 32]) -> (r: String)
    ensures
        r@ == bip39_phrase_of(entropy@),
        bip39_valid(r@),
{
    bip32::Mnemonic::from_entropy(*entropy, bip32::Language::English).phrase().to_string()
}

/// Relies on rand_core's `OsRng::fill_bytes`: 32 bytes from the operating
/// system's random source. Nothing is known of their value.
#[verifier::external_body]
pub(crate) fn os_entropy() -> (r: [u8; 32]) {
    let mut e = [0u8; 32];
    rand_core::OsRng.fill_bytes(&mut e);
    e
}

/// Relies on bip32's `PrivateKey::from_bytes` for k256's `SigningKey`
/// (fails outside the scalar range) and `PublicKey::to_bytes` of its
/// verifying key (33-byte compressed SEC1).
#[verifier::external_body]
pub(crate) fn secp256k1_public_key(secret: &[u8; 32]) -> (r: Result<[u8; 33], bip32::Error>)
    ensures
        match r {
            Ok(k) => ecdsa_public_key(secret@) == Some(k@),
            Err(_) => ecdsa_public_key(secret@) is None,
        },
{
    let sk = <SigningKey as PrivateKey>::from_bytes(secret)?;
    Ok(PrivateKey::public_key(&sk).to_bytes())
}

/// Relies on k256's `Signer::sign` for `SigningKey` (RFC 6979, so the
/// signature depends on key and message alone) and on its documented
/// property that the signature verifies under the matching verifying key.
#[verifier::external_body]
pub(crate) fn secp256k1_sign(secret: &[u8; 32], message: &[u8]) -> (r: Result<Vec<u8>, bip32::Error>)
    ensures
        r is Ok <==> ecdsa_public_key(secret@) is Some,
        r matches Ok(s) ==> s@ == ecdsa_signature(secret@, message@),
        r matches Ok(s) ==> ecdsa_well_formed(ecdsa_public_key(secret@)->Some_0, s@),
        r matches Ok(s) ==> ecdsa_accepts(ecdsa_public_key(secret@)->Some_0, message@, s@),
{
    let sk = <SigningKey as PrivateKey>::from_bytes(secret)?;
    let sig: Signature = sk.sign(message);
    Ok(sig.to_bytes().to_vec())
}

/// Relies on k256's `VerifyingKey::from_sec1_bytes`, `Signature::from_slice`
/// and `Verifier::verify`: `None` where either encoding does not parse.
#[verifier::external_body]
pub(crate) fn secp256k1_verify(key: &[u8], message: &[u8], signature: &[u8]) -> (r: Option<bool>)
    ensures
        r is Some <==> ecdsa_well_formed(key@, signature@),
        r matches Some(b) ==> b == ecdsa_accepts(key@, message@, signature@),
{
    let vk = VerifyingKey::from_sec1_bytes(key).ok()?;
    let sig = Signature::from_slice(signature).ok()?;
    Some(vk.verify(message, &sig).is_ok())
}

/// Relies on x25519-dalek's `PublicKey::from(&StaticSecret)`, and on the
/// Diffie-Hellman property the crate documents: any other secret combined
/// with this public key gives what this secret gives with the other's.
#[verifier::external_body]
pub(crate) fn x25519_public(secret: &[u8; 32]) -> (r: [u8; 32])
    ensures
        r@ == x25519_public_of(secret@),
        forall|other: Seq<u8>|
            other.len() == 32 ==> #[trigger] x25519_shared(other, r@) == x25519_shared(
                secret@,
                x25519_public_of(other),
            ),
{
    x25519_dalek::PublicKey::from(&x25519_dalek::StaticSecret::from(*secret)).to_bytes()
}

/// Relies on x25519-dalek's `StaticSecret::diffie_hellman` and
/// `SharedSecret::to_bytes`; the result depends on the two keys alone.
#[verifier::external_body]
pub(crate) fn x25519_agree(secret: &[u8; 32], peer: &[u8; 32]) -> (r: [u8; 32])
    ensures
        r@ == x25519_shared(secret@, peer@),
{
    let s = x25519_dalek::StaticSecret::from(*secret);
    s.diffie_hellman(&x25519_dalek::PublicKey::from(*peer)).to_bytes()
}

} // verus!
