//! Wire-format conformance: the verified decoders against the real codec's
//! encoders, plus literal fixtures and the graceful-failure paths.

use parity_scale_codec::{Compact, Encode};
use storage_override::scale::{
    decode_account_code, decode_legacy_block, decode_receipt_list, decode_storage_word,
    decode_transaction_status_list, read_compact_u32, read_u256, read_u32, read_u64,
};
use storage_override::types::TransactionAction;

fn compact(n: u32) -> Vec<u8> {
    Compact(n).encode()
}

fn u256_le(n: u64) -> Vec<u8> {
    primitive_types::U256::from(n).encode()
}

fn u256_be(n: u64) -> Vec<u8> {
    primitive_types::U256::from(n).to_big_endian().to_vec()
}

#[test]
fn compact_decoding_matches_codec_across_widths() {
    for n in [
        0u32,
        1,
        63,
        64,
        255,
        16383,
        16384,
        65536,
        0x3FFF_FFFF,
        0x4000_0000,
        u32::MAX,
    ] {
        let enc = compact(n);
        let got = read_compact_u32(&enc, 0);
        assert_eq!(got, Some((n, enc.len())), "compact round trip failed for {n}");
    }
}

#[test]
fn compact_refuses_non_canonical_two_byte_form() {
    // value 1 padded into the two-byte mode: 0b01 tag with payload 1
    let non_canonical = vec![0b0000_0101u8, 0x00];
    assert_eq!(read_compact_u32(&non_canonical, 0), None);
}

#[test]
fn fixed_width_integers_match_codec() {
    let enc32 = 0xDEAD_BEEFu32.encode();
    assert_eq!(read_u32(&enc32, 0), Some((0xDEAD_BEEF, 4)));
    let enc64 = 0x0123_4567_89AB_CDEFu64.encode();
    assert_eq!(read_u64(&enc64, 0), Some((0x0123_4567_89AB_CDEF, 8)));
}

#[test]
fn u256_is_stored_little_endian_and_surfaced_big_endian() {
    let enc = u256_le(0x01_02_03);
    let (value, end) = read_u256(&enc, 0).expect("a full word must decode");
    assert_eq!(end, 32);
    assert_eq!(value.bytes, u256_be(0x01_02_03));
}

#[test]
fn storage_word_decodes_exactly() {
    let mut cell = vec![0u8; 32];
    cell[0] = 0xab;
    cell[31] = 0xcd;
    let word = decode_storage_word(&cell).expect("a 32-byte cell must decode");
    assert_eq!(word.bytes, cell);
}

#[test]
fn truncated_word_decodes_as_absent() {
    // a one-byte buffer where a 32-byte word is expected
    let cell = vec![0x01u8];
    assert!(decode_storage_word(&cell).is_none());
}

#[test]
fn account_code_decodes_as_length_prefixed_bytes() {
    let code = vec![0x60u8, 0x60, 0x60, 0x40];
    let cell = code.encode();
    assert_eq!(decode_account_code(&cell), Some(code));
}

#[test]
fn account_code_with_lying_length_prefix_is_absent() {
    // length prefix says 8 bytes, only 2 follow
    let mut cell = compact(8);
    cell.extend_from_slice(&[0x01, 0x02]);
    assert_eq!(decode_account_code(&cell), None);
}

fn receipt_bytes(sentinel_last_byte: u8, gas: u64) -> Vec<u8> {
    let mut out = Vec::new();
    let mut root = vec![0u8; 32];
    root[31] = sentinel_last_byte;
    out.extend_from_slice(&root);
    out.extend_from_slice(&u256_le(gas));
    out.extend_from_slice(&[0u8; 256]);
    out.extend_from_slice(&compact(0)); // no logs
    out
}

#[test]
fn receipt_list_decodes_with_fields_in_place() {
    let mut cell = compact(2);
    cell.extend_from_slice(&receipt_bytes(1, 21000));
    cell.extend_from_slice(&receipt_bytes(0, 42000));
    let receipts = decode_receipt_list(&cell).expect("two receipts must decode");
    assert_eq!(receipts.len(), 2);
    assert_eq!(receipts[0].state_root.bytes[31], 1);
    assert_eq!(receipts[0].used_gas.bytes, u256_be(21000));
    assert_eq!(receipts[1].state_root.bytes[31], 0);
    assert_eq!(receipts[1].used_gas.bytes, u256_be(42000));
    assert!(receipts[0].logs.is_empty());
}

#[test]
fn receipt_with_logs_decodes_topics_and_data() {
    let mut cell = compact(1);
    let mut root = vec![0u8; 32];
    root[31] = 1;
    cell.extend_from_slice(&root);
    cell.extend_from_slice(&u256_le(1000));
    cell.extend_from_slice(&[0u8; 256]);
    cell.extend_from_slice(&compact(1)); // one log
    cell.extend_from_slice(&[0x11u8; 20]); // log address
    cell.extend_from_slice(&compact(2)); // two topics
    cell.extend_from_slice(&[0x22u8; 32]);
    cell.extend_from_slice(&[0x33u8; 32]);
    cell.extend_from_slice(&vec![0xaau8, 0xbb].encode()); // log data
    let receipts = decode_receipt_list(&cell).expect("the receipt must decode");
    assert_eq!(receipts.len(), 1);
    let log = &receipts[0].logs[0];
    assert_eq!(log.address.bytes, vec![0x11u8; 20]);
    assert_eq!(log.topics.len(), 2);
    assert_eq!(log.topics[0].bytes, vec![0x22u8; 32]);
    assert_eq!(log.topics[1].bytes, vec![0x33u8; 32]);
    assert_eq!(log.data, vec![0xaa, 0xbb]);
}

#[test]
fn truncated_receipt_list_is_absent() {
    let mut cell = compact(1);
    cell.extend_from_slice(&[0u8; 40]); // far short of one receipt
    assert!(decode_receipt_list(&cell).is_none());
}

fn status_bytes(index: u32, with_to: bool) -> Vec<u8> {
    let mut out = Vec::new();
    out.extend_from_slice(&[0x44u8; 32]); // transaction hash
    out.extend_from_slice(&index.encode());
    out.extend_from_slice(&[0x55u8; 20]); // from
    if with_to {
        out.push(1);
        out.extend_from_slice(&[0x66u8; 20]); // to
    } else {
        out.push(0);
    }
    out.push(0); // no contract address
    out.extend_from_slice(&compact(0)); // no logs
    out.extend_from_slice(&[0u8; 256]);
    out
}

#[test]
fn status_list_decodes_in_order() {
    let mut cell = compact(2);
    cell.extend_from_slice(&status_bytes(0, true));
    cell.extend_from_slice(&status_bytes(1, false));
    let statuses = decode_transaction_status_list(&cell).expect("two statuses must decode");
    assert_eq!(statuses.len(), 2);
    assert_eq!(statuses[0].transaction_index, 0);
    assert_eq!(
        statuses[0].to.as_ref().map(|a| a.bytes.clone()),
        Some(vec![0x66u8; 20])
    );
    assert_eq!(statuses[1].transaction_index, 1);
    assert!(statuses[1].to.is_none());
    assert!(statuses[1].contract_address.is_none());
}

#[test]
fn status_with_bad_option_tag_is_absent() {
    let mut cell = compact(1);
    let mut body = status_bytes(0, false);
    body[56] = 7; // the `to` tag byte: neither absent nor present
    cell.extend_from_slice(&body);
    assert!(decode_transaction_status_list(&cell).is_none());
}

fn header_bytes(number: u64, timestamp: u64) -> Vec<u8> {
    let mut out = Vec::new();
    out.extend_from_slice(&[0x01u8; 32]); // parent hash
    out.extend_from_slice(&[0x02u8; 32]); // ommers hash
    out.extend_from_slice(&[0x03u8; 20]); // beneficiary
    out.extend_from_slice(&[0x04u8; 32]); // state root
    out.extend_from_slice(&[0x05u8; 32]); // transactions root
    out.extend_from_slice(&[0x06u8; 32]); // receipts root
    out.extend_from_slice(&[0u8; 256]); // bloom
    out.extend_from_slice(&u256_le(131072)); // difficulty
    out.extend_from_slice(&u256_le(number));
    out.extend_from_slice(&u256_le(8_000_000)); // gas limit
    out.extend_from_slice(&u256_le(21_000)); // gas used
    out.extend_from_slice(&timestamp.encode());
    out.extend_from_slice(&Vec::<u8>::new().encode()); // extra data
    out.extend_from_slice(&[0x07u8; 32]); // mix hash
    out.extend_from_slice(&[0x08u8; 8]); // nonce
    out
}

fn legacy_transaction_bytes(nonce: u64) -> Vec<u8> {
    let mut out = Vec::new();
    out.extend_from_slice(&u256_le(nonce));
    out.extend_from_slice(&u256_le(1_000_000_000)); // gas price
    out.extend_from_slice(&u256_le(21_000)); // gas limit
    out.push(0); // action: call
    out.extend_from_slice(&[0x99u8; 20]); // call target
    out.extend_from_slice(&u256_le(5)); // value
    out.extend_from_slice(&Vec::<u8>::new().encode()); // input
    out.extend_from_slice(&27u64.encode()); // signature v
    out.extend_from_slice(&[0x0au8; 32]); // signature r
    out.extend_from_slice(&[0x05u8; 32]); // signature s
    out
}

#[test]
fn legacy_block_decodes_header_and_transactions() {
    let mut cell = header_bytes(7, 1_600_000_000);
    cell.extend_from_slice(&compact(2));
    cell.extend_from_slice(&legacy_transaction_bytes(0));
    cell.extend_from_slice(&legacy_transaction_bytes(1));
    cell.extend_from_slice(&compact(0)); // no ommers
    let block = decode_legacy_block(&cell).expect("the block must decode");
    assert_eq!(block.header.number.bytes, u256_be(7));
    assert_eq!(block.header.timestamp, 1_600_000_000);
    assert_eq!(block.transactions.len(), 2);
    assert_eq!(block.transactions[0].nonce.bytes, u256_be(0));
    assert_eq!(block.transactions[1].nonce.bytes, u256_be(1));
    assert!(matches!(
        block.transactions[0].action,
        TransactionAction::Call(_)
    ));
    assert_eq!(block.transactions[0].signature.v, 27);
    assert!(block.ommers.is_empty());
}

#[test]
fn truncated_block_is_absent() {
    let cell = header_bytes(7, 0)[..100].to_vec();
    assert!(decode_legacy_block(&cell).is_none());
}

#[test]
fn trailing_bytes_are_tolerated() {
    // storage reads decode a prefix and ignore what follows, as the original
    // storage layer does
    let mut cell = vec![0x5au8; 32];
    cell.extend_from_slice(&[0xff; 10]);
    let word = decode_storage_word(&cell).expect("the leading word must decode");
    assert_eq!(word.bytes, vec![0x5au8; 32]);
}
