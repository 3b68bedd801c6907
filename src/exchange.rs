//! Exchange identity: X25519 key pairs made from the same node key bytes.
use vstd::prelude::*;
use crate::error::KeyError;
use crate::primitives::{x25519_agree, x25519_public, x25519_public_of, x25519_shared};

verus! {

/// An X25519 static secret and its public key.
#[derive(Clone, Copy, Debug)]
pub struct ExchangeKeyPair {
    pub secret: [u8; 32],
    pub public: [u8; 32],
}

/// `p` is the exchange key pair of the key bytes `k`: its secret is `k`, its
/// public key is that of `k`, and agreement with it is symmetric: any other
/// secret with this public key gives what `k` gives with the other's.
pub open spec fn exchange_pair_of(k: Seq<u8>, p: ExchangeKeyPair) -> bool {
    &&& p.secret@ == k
    &&& p.public@ == x25519_public_of(k)
    &&& forall|other: Seq<u8>|
        other.len() == 32 ==> #[trigger] x25519_shared(other, p.public@) == x25519_shared(
            k,
            x25519_public_of(other),
        )
}

/// The exchange key pair whose secret is the given 32 bytes.
pub fn exchange_key_pair(secret: &[u8; 32]) -> (r: ExchangeKeyPair)
    ensures
        exchange_pair_of(secret@, r),
{
    ExchangeKeyPair { secret: *secret, public: x25519_public(secret) }
}

pub open spec fn is_all_zero(s: Seq<u8>) -> bool {
    forall|i: int| 0 <= i < s.len() ==> s[i] == 0
}

/// The shared secret of `secret` and a peer's public key. A peer key of low
/// order gives the all-zero value and is refused with `InvalidPeerKey`.
pub fn agree(secret: &[u8; 32], peer: &[u8; 32]) -> (r: Result<[u8; 32], KeyError>)
    ensures
        if is_all_zero(x25519_shared(secret@, peer@)) {
            r == Err::<[u8; 32], KeyError>(KeyError::InvalidPeerKey)
        } else {
            r matches Ok(k) && k@ == x25519_shared(secret@, peer@)
        },
{
    let k = x25519_agree(secret, peer);
    let mut i: usize = 0;
    while i < 32
        invariant
            i <= 32,
            k@.len() == 32,
            k@ == x25519_shared(secret@, peer@),
            forall|j: int| 0 <= j < i ==> k@[j] == 0,
        decreases 32 - i,
    {
        if k[i] != 0 {
            assert(k@[i as int] != 0);
            return Ok(k);
        }
        i = i + 1;
    }
    Err(KeyError::InvalidPeerKey)
}

/// Diffie-Hellman symmetry: for two exchange key pairs, each party's secret
/// with the other's public key gives the same shared secret.
pub proof fn lemma_agreement_symmetric(ka: Seq<u8>, a: ExchangeKeyPair, kb: Seq<u8>, b: ExchangeKeyPair)
    requires
        exchange_pair_of(ka, a),
        exchange_pair_of(kb, b),
    ensures
        x25519_shared(a.secret@, b.public@) == x25519_shared(b.secret@, a.public@),
{
    assert(ka.len() == 32);
    assert(x25519_shared(ka, b.public@) == x25519_shared(kb, x25519_public_of(ka)));
}

} // verus!
