//! Key-derivation behavior: determinism, shape, and practical non-collision.

use storage_override::keys::{
    account_storage_key, blake2_128_extend, storage_prefix_build,
};
use storage_override::types::{Address, U256};

fn bytes(s: &str) -> Vec<u8> {
    s.as_bytes().to_vec()
}

#[test]
fn prefix_is_deterministic_across_calls() {
    let a = storage_prefix_build(&bytes("EVM"), &bytes("AccountStorages"));
    let b = storage_prefix_build(&bytes("EVM"), &bytes("AccountStorages"));
    assert_eq!(a, b);
    assert_eq!(a.len(), 32);
}

#[test]
fn map_key_is_deterministic_across_calls() {
    let address = Address { bytes: vec![0x11u8; 20] };
    let index = U256 { bytes: vec![0x00u8; 32] };
    let a = account_storage_key(&address, &index);
    let b = account_storage_key(&address, &index);
    assert_eq!(a, b);
    // 32-byte family prefix + (16 + 20) for the address + (16 + 32) for the index
    assert_eq!(a.len(), 32 + 36 + 48);
}

#[test]
fn extend_reveals_raw_component_after_digest() {
    let component = vec![0xaau8, 0xbb, 0xcc];
    let extended = blake2_128_extend(&component);
    assert_eq!(extended.len(), 16 + 3);
    assert_eq!(&extended[16..], &component[..]);
}

#[test]
fn distinct_pairs_give_distinct_prefixes() {
    let pairs: Vec<(&str, &str)> = vec![
        ("EVM", "AccountCodes"),
        ("EVM", "AccountStorages"),
        ("EVM", "CurrentBlock"),
        ("Ethereum", "CurrentBlock"),
        ("Ethereum", "CurrentReceipts"),
        ("Ethereum", "CurrentTransactionStatuses"),
        ("Ethereum", "AccountCodes"),
    ];
    let prefixes: Vec<Vec<u8>> = pairs
        .iter()
        .map(|(m, i)| storage_prefix_build(&bytes(m), &bytes(i)))
        .collect();
    for x in 0..prefixes.len() {
        for y in (x + 1)..prefixes.len() {
            assert_ne!(prefixes[x], prefixes[y], "prefix collision for distinct pairs");
        }
    }
}

#[test]
fn prefix_matches_known_substrate_layout() {
    // twox128("EVM") ++ twox128("AccountStorages"), cross-checked against the
    // hashing crate directly.
    let prefix = storage_prefix_build(&bytes("EVM"), &bytes("AccountStorages"));
    let mut expected = sp_core_hashing::twox_128(b"EVM").to_vec();
    expected.extend_from_slice(&sp_core_hashing::twox_128(b"AccountStorages"));
    assert_eq!(prefix, expected);
}

#[test]
fn distinct_slots_give_distinct_keys() {
    let address = Address { bytes: vec![0x22u8; 20] };
    let mut index_one = vec![0u8; 32];
    index_one[31] = 1;
    let mut index_two = vec![0u8; 32];
    index_two[31] = 2;
    let a = account_storage_key(&address, &U256 { bytes: index_one });
    let b = account_storage_key(&address, &U256 { bytes: index_two });
    assert_ne!(a, b);
}
