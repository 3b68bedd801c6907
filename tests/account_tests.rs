use account::account::Account;
use account::error::KeyError;
use account::phrase::PrivKey;
use account::seed::{mnemonic_from_entropy, seed_from_mnemonic};
use account::signing::{sign, signing_key_pair, verify};

const ABANDON_ART: &str = "abandon abandon abandon abandon abandon abandon abandon abandon abandon abandon abandon abandon abandon abandon abandon abandon abandon abandon abandon abandon abandon abandon abandon art";

fn hex(b: &[u8]) -> String {
    b.iter().map(|x| format!("{:02x}", x)).collect()
}

#[test]
fn seed_matches_bip39_vector() {
    let s = seed_from_mnemonic(ABANDON_ART, Some("TREZOR")).unwrap();
    assert_eq!(
        hex(&s),
        "bda85446c68413707090a52022edd26a1c9462295029f2e60cd7c4f2bbd3097170af7a4d73245cafa9c3cca8d561a7c3de6f5d4a10be8ed2a5e608d68f92fcc8"
    );
}

#[test]
fn seed_depends_on_passphrase() {
    let a = seed_from_mnemonic(ABANDON_ART, None).unwrap();
    let b = seed_from_mnemonic(ABANDON_ART, Some("")).unwrap();
    let c = seed_from_mnemonic(ABANDON_ART, Some("x")).unwrap();
    assert_eq!(a, b);
    assert_ne!(a, c);
}

#[test]
fn seed_rejects_malformed_mnemonic() {
    assert_eq!(seed_from_mnemonic("abandon", None), Err(KeyError::InvalidMnemonic));
    assert_eq!(seed_from_mnemonic("", None), Err(KeyError::InvalidMnemonic));
    let bad_checksum = ABANDON_ART.replace(" art", " abandon");
    assert_eq!(seed_from_mnemonic(&bad_checksum, None), Err(KeyError::InvalidMnemonic));
    let unknown = ABANDON_ART.replace(" art", " zzzz");
    assert_eq!(seed_from_mnemonic(&unknown, None), Err(KeyError::InvalidMnemonic));
}

#[test]
fn mnemonic_of_zero_entropy() {
    assert_eq!(mnemonic_from_entropy(&[0u8; 32]), ABANDON_ART);
}

#[test]
fn account_end_to_end_sign_and_verify() {
    let account = Account::from_phrase(ABANDON_ART, None).unwrap();
    let path = "m/44'/0'/0'/0/0'";
    let sig = account.sign(path, b"Hello, world!").unwrap();
    assert_eq!(sig.len(), 64);
    assert_eq!(account.verify(path, b"Hello, world!", &sig), Ok(true));
    assert_eq!(account.verify(path, b"Hello, world?", &sig), Ok(false));
    assert_eq!(account.sign(path, b"Hello, world!").unwrap(), sig);
}

#[test]
fn account_random_round_trip() {
    let account = Account::new(None);
    let sig = account.sign("m/0/1'", b"message").unwrap();
    assert_eq!(account.verify("m/0/1'", b"message", &sig), Ok(true));
    assert_eq!(account.verify("m/0/2'", b"message", &sig), Ok(false));
}

#[test]
fn account_rejects_tampering() {
    let account = Account::from_seed([9u8; 64]);
    let path = "m/44'/0'/0'/0/0'";
    let msg = b"transfer 10".to_vec();
    let sig = account.sign(path, &msg).unwrap();
    for i in 0..msg.len() {
        let mut m = msg.clone();
        m[i] ^= 1;
        assert_eq!(account.verify(path, &m, &sig), Ok(false));
    }
    for i in 0..sig.len() {
        let mut s = sig.clone();
        s[i] ^= 1;
        assert!(!matches!(account.verify(path, &msg, &s), Ok(true)));
    }
}

#[test]
fn account_malformed_signature() {
    let account = Account::from_seed([9u8; 64]);
    assert_eq!(account.verify("m/0", b"m", &[1u8; 10]), Err(KeyError::MalformedSignature));
    assert_eq!(account.verify("m/0", b"m", &[0u8; 64]), Err(KeyError::MalformedSignature));
    assert_eq!(account.verify("0", b"m", &[0u8; 64]), Err(KeyError::InvalidPath));
    assert!(matches!(account.sign("", b"m"), Err(KeyError::InvalidPath)));
}

#[test]
fn account_key_pairs() {
    let account = Account::from_seed([9u8; 64]);
    let pair = account.sign_key("m/1").unwrap();
    assert_eq!(pair.signing_key, account::path::derive_at(&account.seed, "m/1").unwrap());
    assert!(pair.verifying_key[0] == 2 || pair.verifying_key[0] == 3);
    let dh = account.sub_dh_key("m/1").unwrap();
    assert_eq!(dh.secret, pair.signing_key);
    assert_ne!(dh.public.to_vec(), pair.verifying_key[1..].to_vec());
    let root = account.get_root_key().unwrap();
    assert_eq!(root, account::path::derive_at(&account.seed, "m").unwrap());
    assert_eq!(PrivKey::get_root_key(&account.seed).unwrap(), root);
    assert_ne!(root, pair.signing_key);
}

#[test]
fn signing_primitives() {
    let pair = signing_key_pair(&[1u8; 32]).unwrap();
    assert_eq!(
        hex(&pair.verifying_key),
        "031b84c5567b126440995d3ed5aaba0565d71e1834604819ff9c17f5e9d5dd078f"
    );
    let sig = sign(&pair.signing_key, b"abc").unwrap();
    assert_eq!(verify(&pair.verifying_key, b"abc", &sig), Ok(true));
    assert_eq!(verify(&pair.verifying_key[..32], b"abc", &sig), Err(KeyError::MalformedSignature));
    assert!(matches!(signing_key_pair(&[0u8; 32]), Err(KeyError::DerivationFailed)));
    assert_eq!(sign(&[0xffu8; 32], b"abc"), Err(KeyError::DerivationFailed));
}

#[test]
fn priv_key_record() {
    let stored = PrivKey::get_mnemonic("keys.toml", ABANDON_ART);
    assert_eq!(stored.phrase, ABANDON_ART);
    assert_eq!(stored.key_path, "keys.toml");
    let fresh = PrivKey::get_mnemonic("keys.toml", "");
    assert!(seed_from_mnemonic(&fresh.phrase, None).is_ok());
    let mut p = PrivKey::default();
    p.set_strength("24".to_string());
    p.set_phrase("x".to_string());
    p.set_key_path("y".to_string());
    assert_eq!((p.strength.as_str(), p.phrase.as_str(), p.key_path.as_str()), ("24", "x", "y"));
}
