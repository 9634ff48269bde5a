//! The schema override end to end against a fixture backend: absent versus
//! zero, order preservation, upgrade rules, capability constancy.

use parity_scale_codec::{Compact, Encode};
use storage_override::backend::StateBackend;
use storage_override::keys::{
    account_storage_key, current_block_key, current_receipts_key, current_statuses_key,
};
use storage_override::schema_v1::{upgrade_receipt, SchemaV1Override};
use storage_override::types::{Address, LegacyReceipt, Receipt, Transaction, H256, U256, Bloom};

fn compact(n: u32) -> Vec<u8> {
    Compact(n).encode()
}

fn u256_le(n: u64) -> Vec<u8> {
    primitive_types::U256::from(n).encode()
}

fn u256_be(n: u64) -> Vec<u8> {
    primitive_types::U256::from(n).to_big_endian().to_vec()
}

fn sample_address() -> Address {
    Address { bytes: vec![0x11u8; 20] }
}

fn slot_index(n: u64) -> U256 {
    U256 { bytes: u256_be(n) }
}

fn receipt_bytes(sentinel_last_byte: u8, gas: u64) -> Vec<u8> {
    let mut out = Vec::new();
    let mut root = vec![0u8; 32];
    root[31] = sentinel_last_byte;
    out.extend_from_slice(&root);
    out.extend_from_slice(&u256_le(gas));
    out.extend_from_slice(&[0u8; 256]);
    out.extend_from_slice(&compact(0));
    out
}

fn header_bytes(number: u64, timestamp: u64) -> Vec<u8> {
    let mut out = Vec::new();
    out.extend_from_slice(&[0x01u8; 32]);
    out.extend_from_slice(&[0x02u8; 32]);
    out.extend_from_slice(&[0x03u8; 20]);
    out.extend_from_slice(&[0x04u8; 32]);
    out.extend_from_slice(&[0x05u8; 32]);
    out.extend_from_slice(&[0x06u8; 32]);
    out.extend_from_slice(&[0u8; 256]);
    out.extend_from_slice(&u256_le(131072));
    out.extend_from_slice(&u256_le(number));
    out.extend_from_slice(&u256_le(8_000_000));
    out.extend_from_slice(&u256_le(21_000));
    out.extend_from_slice(&timestamp.encode());
    out.extend_from_slice(&Vec::<u8>::new().encode());
    out.extend_from_slice(&[0x07u8; 32]);
    out.extend_from_slice(&[0x08u8; 8]);
    out
}

fn legacy_transaction_bytes(nonce: u64) -> Vec<u8> {
    let mut out = Vec::new();
    out.extend_from_slice(&u256_le(nonce));
    out.extend_from_slice(&u256_le(1_000_000_000));
    out.extend_from_slice(&u256_le(21_000));
    out.push(0);
    out.extend_from_slice(&[0x99u8; 20]);
    out.extend_from_slice(&u256_le(5));
    out.extend_from_slice(&Vec::<u8>::new().encode());
    out.extend_from_slice(&27u64.encode());
    out.extend_from_slice(&[0x0au8; 32]);
    out.extend_from_slice(&[0x05u8; 32]);
    out
}

#[test]
fn absent_versus_zero_storage_slot() {
    let block = 5u64;
    let mut backend = StateBackend::new();
    // slot 1 explicitly written as the all-zero word; slot 2 never written
    let written = account_storage_key(&sample_address(), &slot_index(1));
    backend.write(block, written, vec![0u8; 32]);
    let or = SchemaV1Override::new(backend);
    let present = or.storage_at(block, &sample_address(), &slot_index(1));
    assert_eq!(present, Some(H256 { bytes: vec![0u8; 32] }));
    let absent = or.storage_at(block, &sample_address(), &slot_index(2));
    assert_eq!(absent, None);
}

#[test]
fn corrupt_storage_slot_reads_absent() {
    let block = 5u64;
    let mut backend = StateBackend::new();
    let key = account_storage_key(&sample_address(), &slot_index(1));
    backend.write(block, key, vec![0x01u8]); // one byte where a word belongs
    let or = SchemaV1Override::new(backend);
    assert_eq!(or.storage_at(block, &sample_address(), &slot_index(1)), None);
}

#[test]
fn account_code_roundtrip_and_absence() {
    let block = 9u64;
    let mut backend = StateBackend::new();
    let code = vec![0x60u8, 0x00, 0xf3];
    let key = storage_override::keys::account_code_key(&sample_address());
    backend.write(block, key, code.encode());
    let or = SchemaV1Override::new(backend);
    assert_eq!(or.account_code_at(block, &sample_address()), Some(code));
    let other = Address { bytes: vec![0x77u8; 20] };
    assert_eq!(or.account_code_at(block, &other), None);
}

#[test]
fn reads_are_per_block() {
    let mut backend = StateBackend::new();
    let key = account_storage_key(&sample_address(), &slot_index(1));
    backend.write(3, key, vec![0x05u8; 32]);
    let or = SchemaV1Override::new(backend);
    assert!(or.storage_at(3, &sample_address(), &slot_index(1)).is_some());
    assert!(or.storage_at(4, &sample_address(), &slot_index(1)).is_none());
}

#[test]
fn receipts_preserve_order_and_upgrade_sentinels() {
    let block = 2u64;
    let mut cell = compact(3);
    cell.extend_from_slice(&receipt_bytes(1, 100));
    cell.extend_from_slice(&receipt_bytes(0, 200));
    cell.extend_from_slice(&receipt_bytes(9, 300)); // out-of-range legacy sentinel
    let mut backend = StateBackend::new();
    backend.write(block, current_receipts_key(), cell);
    let or = SchemaV1Override::new(backend);
    let receipts = or.current_receipts(block).expect("the receipt list must decode");
    assert_eq!(receipts.len(), 3);
    let codes: Vec<u8> = receipts
        .iter()
        .map(|r| match r {
            Receipt::Legacy(d) => d.status_code,
            Receipt::EIP2930(d) => d.status_code,
            Receipt::EIP1559(d) => d.status_code,
        })
        .collect();
    // every legal sentinel maps, and the out-of-range one still maps to a
    // defined value: the low byte of the sentinel word
    assert_eq!(codes, vec![1, 0, 9]);
    for (i, gas) in [100u64, 200, 300].iter().enumerate() {
        match &receipts[i] {
            Receipt::Legacy(d) => assert_eq!(d.used_gas.bytes, u256_be(*gas)),
            _ => panic!("the legacy generation upgrades into the legacy variant"),
        }
    }
}

#[test]
fn upgrade_is_total_over_sentinel_bytes() {
    for sentinel in [0u8, 1, 2, 0x7f, 0xff] {
        let mut root = vec![0u8; 32];
        root[31] = sentinel;
        let legacy = LegacyReceipt {
            state_root: H256 { bytes: root },
            used_gas: U256 { bytes: u256_be(1) },
            logs_bloom: Bloom { bytes: vec![0u8; 256] },
            logs: vec![],
        };
        match upgrade_receipt(legacy) {
            Receipt::Legacy(d) => assert_eq!(d.status_code, sentinel),
            _ => panic!("the legacy generation upgrades into the legacy variant"),
        }
    }
}

#[test]
fn statuses_preserve_order() {
    let block = 2u64;
    let mut status0 = Vec::new();
    status0.extend_from_slice(&[0x44u8; 32]);
    status0.extend_from_slice(&0u32.encode());
    status0.extend_from_slice(&[0x55u8; 20]);
    status0.push(0);
    status0.push(0);
    status0.extend_from_slice(&compact(0));
    status0.extend_from_slice(&[0u8; 256]);
    let mut status1 = status0.clone();
    status1[32..36].copy_from_slice(&1u32.encode());
    let mut cell = compact(2);
    cell.extend_from_slice(&status0);
    cell.extend_from_slice(&status1);
    let mut backend = StateBackend::new();
    backend.write(block, current_statuses_key(), cell);
    let or = SchemaV1Override::new(backend);
    let statuses = or.current_transaction_statuses(block).expect("the list must decode");
    assert_eq!(statuses.len(), 2);
    assert_eq!(statuses[0].transaction_index, 0);
    assert_eq!(statuses[1].transaction_index, 1);
}

#[test]
fn corrupt_receipts_cell_reads_absent() {
    let block = 2u64;
    let mut cell = compact(1);
    cell.extend_from_slice(&[0u8; 31]); // one byte short of the sentinel word alone
    let mut backend = StateBackend::new();
    backend.write(block, current_receipts_key(), cell);
    let or = SchemaV1Override::new(backend);
    assert!(or.current_receipts(block).is_none());
}

#[test]
fn capabilities_are_constant_over_blocks() {
    let or = SchemaV1Override::new(StateBackend::new());
    for block in [0u64, 1, 1_000_000, u64::MAX] {
        assert_eq!(or.base_fee(block), None);
        assert_eq!(or.elasticity(block), None);
        assert!(!or.is_eip1559(block));
    }
}

#[test]
fn end_to_end_legacy_block_with_one_transaction() {
    let block = 42u64;
    let mut block_cell = header_bytes(42, 1_600_000_000);
    block_cell.extend_from_slice(&compact(1));
    block_cell.extend_from_slice(&legacy_transaction_bytes(7));
    block_cell.extend_from_slice(&compact(0));
    let mut receipts_cell = compact(1);
    receipts_cell.extend_from_slice(&receipt_bytes(1, 21_000));
    let mut backend = StateBackend::new();
    backend.write(block, current_block_key(), block_cell);
    backend.write(block, current_receipts_key(), receipts_cell);
    let or = SchemaV1Override::new(backend);

    let canonical = or.current_block(block).expect("the block must decode");
    assert_eq!(canonical.transactions.len(), 1);
    let Transaction::Legacy(tx) = &canonical.transactions[0];
    assert_eq!(tx.nonce.bytes, u256_be(7));
    assert_eq!(canonical.header.number.bytes, u256_be(42));

    let receipts = or.current_receipts(block).expect("the receipts must decode");
    assert_eq!(receipts.len(), 1);
    match &receipts[0] {
        Receipt::Legacy(d) => {
            // the sentinel success root maps to status code 1 under the
            // documented upgrade rule
            assert_eq!(d.status_code, 1);
            assert_eq!(d.used_gas.bytes, u256_be(21_000));
        },
        _ => panic!("the legacy generation upgrades into the legacy variant"),
    }
}

#[test]
fn last_write_wins_in_the_fixture_backend() {
    let block = 1u64;
    let mut backend = StateBackend::new();
    let key = account_storage_key(&sample_address(), &slot_index(1));
    backend.write(block, key.clone(), vec![0x01u8; 32]);
    backend.write(block, key, vec![0x02u8; 32]);
    let or = SchemaV1Override::new(backend);
    let got = or.storage_at(block, &sample_address(), &slot_index(1));
    assert_eq!(got, Some(H256 { bytes: vec![0x02u8; 32] }));
}
