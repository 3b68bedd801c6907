use account::error::KeyError;
use account::path::{child_numbers, derive_at, derive_node, parse_path, DerivationPath, Segment, HARDENED_OFFSET};

fn seg(index: u32, hardened: bool) -> Segment {
    Segment { index, hardened }
}

#[test]
fn path_parses_segments_in_order() {
    let p = parse_path("m/44'/0'/0'/0/0'").unwrap();
    assert_eq!(
        p.segments,
        vec![seg(44, true), seg(0, true), seg(0, true), seg(0, false), seg(0, true)]
    );
    assert_eq!(child_numbers(&p).unwrap(), vec![0x8000_002c, 0x8000_0000, 0x8000_0000, 0, 0x8000_0000]);
}

#[test]
fn path_master_alone_is_empty() {
    assert_eq!(parse_path("m").unwrap().segments, vec![]);
}

#[test]
fn path_largest_index() {
    let p = parse_path("m/2147483647'/2147483647").unwrap();
    assert_eq!(p.segments, vec![seg(2147483647, true), seg(2147483647, false)]);
    assert_eq!(child_numbers(&p).unwrap(), vec![u32::MAX, 0x7fff_ffff]);
}

#[test]
fn path_rejects_malformed_text() {
    for t in [
        "", "m/abc", "44'/0'", "m/", "m//1", "m/1/", "m/2147483648", "m/99999999999999999999",
        "m/1''", "m/'", "m/'1", "m/-1", "m/+1", "M/1", "m1", "m/1 ", "m/1a", "mm/1", "m/é",
    ] {
        assert!(matches!(parse_path(t), Err(KeyError::InvalidPath)), "{}", t);
    }
}

#[test]
fn derive_is_deterministic() {
    let seed = [42u8; 64];
    let a = derive_at(&seed, "m/44'/0'/0'/0/0'").unwrap();
    let b = derive_at(&seed, "m/44'/0'/0'/0/0'").unwrap();
    assert_eq!(a, b);
    assert_eq!(derive_at(&seed, "m/01'").unwrap(), derive_at(&seed, "m/1'").unwrap());
}

#[test]
fn derive_isolates_paths() {
    let seed = [42u8; 64];
    let paths = ["m", "m/0", "m/0'", "m/1", "m/0/0", "m/44'/0'/0'/0/0'", "m/11'/0'/0'/0/0'"];
    let keys: Vec<[u8; 32]> = paths.iter().map(|p| derive_at(&seed, p).unwrap()).collect();
    for i in 0..keys.len() {
        for j in 0..i {
            assert_ne!(keys[i], keys[j], "{} {}", paths[i], paths[j]);
        }
    }
}

#[test]
fn derive_isolates_seeds() {
    let a = derive_at(&[1u8; 64], "m/44'/0'/0'/0/0'").unwrap();
    let b = derive_at(&[2u8; 64], "m/44'/0'/0'/0/0'").unwrap();
    assert_ne!(a, b);
}

#[test]
fn derive_reports_errors() {
    assert_eq!(derive_at(&[1u8; 64], "m/abc"), Err(KeyError::InvalidPath));
    let mut deep = String::from("m");
    for _ in 0..256 {
        deep.push_str("/0");
    }
    assert_eq!(derive_at(&[1u8; 64], &deep), Err(KeyError::DerivationFailed));
}

#[test]
fn derive_node_refuses_out_of_range_index() {
    let p = DerivationPath { segments: vec![seg(HARDENED_OFFSET, false)] };
    assert_eq!(child_numbers(&p), None);
    assert_eq!(derive_node(&[1u8; 64], &p), Err(KeyError::InvalidPath));
    let q = DerivationPath { segments: vec![seg(7, true)] };
    assert_eq!(derive_node(&[1u8; 64], &q), derive_at(&[1u8; 64], "m/7'"));
}
