//! The general properties the library states of itself, each proved once and
//! for all inputs.

use vstd::prelude::*;

use crate::backend::{GStorageEntry, lookup};
use crate::keys::{account_storage_key_of, blake2_128_extend_of, storage_prefix_of};
use crate::scale::{dec_byte_vec, dec_bytes, dec_compact_u32, enc_compact_u32};
use vstd::arithmetic::div_mod::{
    lemma_div_denominator, lemma_fundamental_div_mod, lemma_fundamental_div_mod_converse,
};
use crate::schema_v1::{
    legacy_status_code, storage_at_spec, upgrade_receipt_spec, upgrade_receipts_spec,
};
use crate::types::{GLegacyReceipt, GReceipt};

verus! {

/// Determinism of key derivation: the family prefix and each hash-then-reveal
/// map-key component are functions of the input bytes alone, so equal inputs
/// give byte-identical keys, on every call and in every process.
pub proof fn lemma_key_derivation_deterministic(
    ns1: Seq<u8>,
    it1: Seq<u8>,
    ns2: Seq<u8>,
    it2: Seq<u8>,
    part1: Seq<u8>,
    part2: Seq<u8>,
)
    requires
        ns1 == ns2,
        it1 == it2,
        part1 == part2,
    ensures
        storage_prefix_of(ns1, it1) == storage_prefix_of(ns2, it2),
        blake2_128_extend_of(part1) == blake2_128_extend_of(part2),
{
}

/// Absent versus zero: a slot never written reads as absent, while a slot
/// written as the all-zero word reads as present with the zero word. The two
/// outcomes are distinguishable for every state, block and slot.
pub proof fn lemma_absent_vs_zero(
    state: Seq<GStorageEntry>,
    block: u64,
    address: Seq<u8>,
    index_be: Seq<u8>,
)
    ensures
        lookup(state, block, account_storage_key_of(address, index_be)) is None ==> storage_at_spec(
            state,
            block,
            address,
            index_be,
        ) is None,
        lookup(state, block, account_storage_key_of(address, index_be)) == Some(
            Seq::new(32, |i: int| 0u8),
        ) ==> storage_at_spec(state, block, address, index_be) == Some(Seq::new(32, |i: int| 0u8)),
{
    let z = Seq::new(32, |i: int| 0u8);
    if lookup(state, block, account_storage_key_of(address, index_be)) == Some(z) {
        assert(dec_bytes(z, 0, 32) == Some((z.subrange(0, 32), 32int)));
        assert(z.subrange(0, 32) =~= z);
    }
}

/// Graceful decode failure: a stored slot cell shorter than one word reads as
/// absent, never as an error, for every state, block and slot.
pub proof fn lemma_short_word_reads_absent(
    state: Seq<GStorageEntry>,
    block: u64,
    address: Seq<u8>,
    index_be: Seq<u8>,
    bytes: Seq<u8>,
)
    requires
        lookup(state, block, account_storage_key_of(address, index_be)) == Some(bytes),
        bytes.len() < 32,
    ensures
        storage_at_spec(state, block, address, index_be) is None,
{
}

/// Order preservation: upgrading a legacy receipt list keeps its length, and
/// the canonical receipt at each index is the upgrade of the legacy receipt
/// at the same index.
pub proof fn lemma_upgrade_preserves_order(rs: Seq<GLegacyReceipt>)
    ensures
        upgrade_receipts_spec(rs).len() == rs.len(),
        forall|i: int|
            0 <= i < rs.len() ==> upgrade_receipts_spec(rs)[i] == upgrade_receipt_spec(
                #[trigger] rs[i],
            ),
{
}

/// Upgrade totality: every legacy receipt, whatever its sentinel word holds,
/// maps to the legacy variant of the canonical shape with a defined status
/// code; for a 32-byte sentinel the status code is its last byte.
pub proof fn lemma_upgrade_total(r: GLegacyReceipt)
    ensures
        upgrade_receipt_spec(r) matches GReceipt::Legacy(d) && d.status_code == legacy_status_code(
            r.state_root,
        ) && d.used_gas == r.used_gas && d.logs_bloom == r.logs_bloom && d.logs == r.logs,
        r.state_root.len() == 32 ==> legacy_status_code(r.state_root) == r.state_root[31],
{
}

/// Splits a 32-bit value into its four base-256 digits and back.
proof fn lemma_radix_u32(x: int)
    requires
        0 <= x < 0x100000000,
    ensures
        x % 256 + ((x / 256) % 256) * 256 + ((x / 65536) % 256) * 65536 + (x / 16777216)
            * 16777216 == x,
        0 <= x % 256 < 256,
        0 <= (x / 256) % 256 < 256,
        0 <= (x / 65536) % 256 < 256,
        0 <= x / 16777216 < 256,
{
    lemma_fundamental_div_mod(x, 256);
    let y1 = x / 256;
    lemma_fundamental_div_mod(y1, 256);
    let y2 = y1 / 256;
    lemma_div_denominator(x, 256, 256);
    assert(y2 == x / 65536);
    lemma_fundamental_div_mod(y2, 256);
    let y3 = y2 / 256;
    lemma_div_denominator(x, 65536, 256);
    assert(y3 == x / 16777216);
    lemma_fundamental_div_mod(x, 16777216);
}

/// Decoding accepts every canonically encoded compact length and returns the
/// value that was encoded, whatever bytes follow: with determinism of the
/// decoder this pins the compact wire form completely.
pub proof fn lemma_compact_round_trip(n: u32, rest: Seq<u8>)
    ensures
        dec_compact_u32(enc_compact_u32(n) + rest, 0) == Some(
            (n, enc_compact_u32(n).len() as int),
        ),
{
    let b = enc_compact_u32(n) + rest;
    if n < 64 {
        lemma_fundamental_div_mod_converse(4 * (n as int), 4, n as int, 0);
        assert(b[0] == (n * 4) as u8);
    } else if n < 16384 {
        let x = 4 * (n as int) + 1;
        lemma_fundamental_div_mod(x, 256);
        let q = x / 256;
        assert(x % 256 == 4 * (n as int - 64 * q) + 1);
        lemma_fundamental_div_mod_converse(x % 256, 4, n as int - 64 * q, 1);
        lemma_fundamental_div_mod_converse(x, 4, n as int, 1);
        assert(b[0] == (x % 256) as u8 && b[1] == (x / 256) as u8);
        assert(b[0] + b[1] * 0x100 == x);
    } else if n <= 0x3FFFFFFF {
        let x = 4 * (n as int) + 2;
        lemma_radix_u32(x);
        let q = x / 256;
        lemma_fundamental_div_mod(x, 256);
        assert(x % 256 == 4 * (n as int - 64 * q) + 2);
        lemma_fundamental_div_mod_converse(x % 256, 4, n as int - 64 * q, 2);
        lemma_fundamental_div_mod_converse(x, 4, n as int, 2);
        assert(b[0] == (x % 256) as u8 && b[1] == ((x / 256) % 256) as u8 && b[2] == ((x / 65536)
            % 256) as u8 && b[3] == (x / 16777216) as u8);
        assert(b[0] + b[1] * 0x100 + b[2] * 0x10000 + b[3] * 0x1000000 == x);
    } else {
        let x = n as int;
        lemma_radix_u32(x);
        let q = x / 256;
        lemma_fundamental_div_mod(x, 256);
        assert(b[0] == 3u8);
        assert(b[1] == (x % 256) as u8 && b[2] == ((x / 256) % 256) as u8 && b[3] == ((x / 65536)
            % 256) as u8 && b[4] == (x / 16777216) as u8);
        assert(b[1] + b[2] * 0x100 + b[3] * 0x10000 + b[4] * 0x1000000 == x);
    }
}

/// Decoding accepts every canonically encoded byte vector (a compact length,
/// then the raw bytes) and returns exactly the bytes that were encoded,
/// whatever bytes follow.
pub proof fn lemma_byte_vec_round_trip(data: Seq<u8>, rest: Seq<u8>)
    requires
        data.len() < 0x100000000,
    ensures
        dec_byte_vec(enc_compact_u32(data.len() as u32) + data + rest, 0) == Some(
            (data, enc_compact_u32(data.len() as u32).len() + data.len() as int),
        ),
{
    let prefix = enc_compact_u32(data.len() as u32);
    let b = prefix + data + rest;
    assert(b =~= prefix + (data + rest));
    lemma_compact_round_trip(data.len() as u32, data + rest);
    let p = prefix.len() as int;
    assert(b.subrange(p, p + data.len() as int) =~= data);
}

} // verus!
