//! The wire format of the legacy storage generation, stated as total
//! specification-level decoders over byte sequences, and executable decoders
//! proved to return exactly what the specification decoders say.
//!
//! A decoder consumes a prefix of its input starting at `pos` and returns the
//! decoded value with the position one past the consumed bytes; trailing bytes
//! are ignored, as the original storage reads ignore them. Every failure
//! (truncated input, a length prefix that is not in canonical form, an unknown
//! variant tag) is `None`: malformed state degrades to "absent", it never
//! aborts the caller.

use vstd::prelude::*;

use crate::types::{
    Address, Bloom, GLegacyBlock, GLegacyReceipt, GLegacyTransaction, GLog, GHeader,
    GTransactionAction, GTransactionSignature, GTransactionStatus, H256, Header, LegacyBlock,
    LegacyReceipt, LegacyTransaction, Log, TransactionAction, TransactionSignature,
    TransactionStatus, U256, h256s_view, headers_view, legacy_receipts_view, legacy_txs_view,
    logs_view, statuses_view,
};

verus! {

// ---------------------------------------------------------------------------
// Specification-level decoding: primitives
// ---------------------------------------------------------------------------

/// Reads `n` raw bytes.
pub open spec fn dec_bytes(b: Seq<u8>, pos: int, n: int) -> Option<(Seq<u8>, int)> {
    if 0 <= pos && 0 <= n && pos + n <= b.len() {
        Some((b.subrange(pos, pos + n), pos + n))
    } else {
        None
    }
}

/// The value of a 4-byte little-endian word.
pub open spec fn u32_from_le(s: Seq<u8>) -> u32
    recommends
        s.len() == 4,
{
    (s[0] + s[1] * 0x100 + s[2] * 0x10000 + s[3] * 0x1000000) as u32
}

/// The value of an 8-byte little-endian word.
pub open spec fn u64_from_le(s: Seq<u8>) -> u64
    recommends
        s.len() == 8,
{
    (s[0] + s[1] * 0x100 + s[2] * 0x10000 + s[3] * 0x1000000 + s[4] * 0x100000000
        + s[5] * 0x10000000000 + s[6] * 0x1000000000000 + s[7] * 0x100000000000000) as u64
}

/// Reads a fixed-width 4-byte little-endian integer.
pub open spec fn dec_u32(b: Seq<u8>, pos: int) -> Option<(u32, int)> {
    match dec_bytes(b, pos, 4) {
        Some((s, p)) => Some((u32_from_le(s), p)),
        None => None,
    }
}

/// Reads a fixed-width 8-byte little-endian integer.
pub open spec fn dec_u64(b: Seq<u8>, pos: int) -> Option<(u64, int)> {
    match dec_bytes(b, pos, 8) {
        Some((s, p)) => Some((u64_from_le(s), p)),
        None => None,
    }
}

/// Reads a compact (variable-width) unsigned integer, the form length
/// prefixes are written in. The two low bits of the first byte select the
/// width; a value whose width is not the canonical (shortest) one is refused.
pub open spec fn dec_compact_u32(b: Seq<u8>, pos: int) -> Option<(u32, int)> {
    if 0 <= pos && pos < b.len() {
        let b0 = b[pos];
        if b0 % 4 == 0 {
            Some(((b0 / 4) as u32, pos + 1))
        } else if b0 % 4 == 1 {
            if pos + 2 <= b.len() {
                let v = (b[pos] + b[pos + 1] * 0x100) / 4;
                if v >= 64 {
                    Some((v as u32, pos + 2))
                } else {
                    None
                }
            } else {
                None
            }
        } else if b0 % 4 == 2 {
            if pos + 4 <= b.len() {
                let v = (b[pos] + b[pos + 1] * 0x100 + b[pos + 2] * 0x10000 + b[pos + 3]
                    * 0x1000000) / 4;
                if v >= 16384 {
                    Some((v as u32, pos + 4))
                } else {
                    None
                }
            } else {
                None
            }
        } else {
            // Big-integer mode: for a 32-bit value only the four-byte form is legal.
            if b0 == 3 && pos + 5 <= b.len() {
                let v = b[pos + 1] + b[pos + 2] * 0x100 + b[pos + 3] * 0x10000 + b[pos + 4]
                    * 0x1000000;
                if v > 0x3FFFFFFF {
                    Some((v as u32, pos + 5))
                } else {
                    None
                }
            } else {
                None
            }
        }
    } else {
        None
    }
}

/// The canonical (shortest) compact encoding of a 32-bit value: the form the
/// storage layer writes length prefixes in, and the only form `dec_compact_u32`
/// accepts.
pub open spec fn enc_compact_u32(n: u32) -> Seq<u8> {
    if n < 64 {
        seq![(n * 4) as u8]
    } else if n < 16384 {
        let x = n * 4 + 1;
        seq![(x % 256) as u8, (x / 256) as u8]
    } else if n <= 0x3FFFFFFF {
        let x = n * 4 + 2;
        seq![
            (x % 256) as u8,
            ((x / 256) % 256) as u8,
            ((x / 65536) % 256) as u8,
            (x / 16777216) as u8,
        ]
    } else {
        seq![
            3u8,
            (n % 256) as u8,
            ((n / 256) % 256) as u8,
            ((n / 65536) % 256) as u8,
            (n / 16777216) as u8,
        ]
    }
}

/// The reversal of a byte sequence: quantities are stored little-endian but
/// the data model holds them in big-endian (display) order.
pub open spec fn rev(s: Seq<u8>) -> Seq<u8> {
    Seq::new(s.len(), |i: int| s[s.len() - 1 - i])
}

/// Reads a 256-bit quantity: 32 stored little-endian bytes, reversed into
/// big-endian order.
pub open spec fn dec_u256(b: Seq<u8>, pos: int) -> Option<(Seq<u8>, int)> {
    match dec_bytes(b, pos, 32) {
        Some((s, p)) => Some((rev(s), p)),
        None => None,
    }
}

/// Reads a length-prefixed byte vector: a compact length, then the bytes.
pub open spec fn dec_byte_vec(b: Seq<u8>, pos: int) -> Option<(Seq<u8>, int)> {
    match dec_compact_u32(b, pos) {
        Some((n, p)) => dec_bytes(b, p, n as int),
        None => None,
    }
}

/// Reads an optional 20-byte address: a tag byte, then the address if the
/// tag says present.
pub open spec fn dec_opt_address(b: Seq<u8>, pos: int) -> Option<(Option<Seq<u8>>, int)> {
    if 0 <= pos && pos < b.len() {
        if b[pos] == 0 {
            Some((None, pos + 1))
        } else if b[pos] == 1 {
            match dec_bytes(b, pos + 1, 20) {
                Some((a, p)) => Some((Some(a), p)),
                None => None,
            }
        } else {
            None
        }
    } else {
        None
    }
}

// ---------------------------------------------------------------------------
// Executable decoding: primitives
// ---------------------------------------------------------------------------

/// Reads `n` raw bytes into a fresh vector.
pub fn read_bytes(b: &Vec<u8>, pos: usize, n: usize) -> (r: Option<(Vec<u8>, usize)>)
    ensures
        (match r {
            Some((v, end)) => dec_bytes(b@, pos as int, n as int) == Some((v@, end as int)),
            None => dec_bytes(b@, pos as int, n as int) is None,
        }),
{
    if n <= b.len() && pos <= b.len() - n {
        let len: usize = b.len();
        let mut out: Vec<u8> = Vec::new();
        let mut i: usize = 0;
        while i < n
            invariant
                i <= n,
                len == b@.len(),
                pos + n <= len,
                out@ == b@.subrange(pos as int, pos + i),
            decreases n - i,
        {
            out.push(b[pos + i]);
            i = i + 1;
            assert(out@ =~= b@.subrange(pos as int, pos + i));
        }
        Some((out, pos + n))
    } else {
        None
    }
}

/// Reads a fixed-width 4-byte little-endian integer.
pub fn read_u32(b: &Vec<u8>, pos: usize) -> (r: Option<(u32, usize)>)
    ensures
        (match r {
            Some((v, end)) => dec_u32(b@, pos as int) == Some((v, end as int)),
            None => dec_u32(b@, pos as int) is None,
        }),
{
    if 4 <= b.len() && pos <= b.len() - 4 {
        let v: u32 = b[pos] as u32 + (b[pos + 1] as u32) * 0x100 + (b[pos + 2] as u32) * 0x10000
            + (b[pos + 3] as u32) * 0x1000000;
        proof {
            let s = b@.subrange(pos as int, pos + 4);
            assert(s[0] == b@[pos as int] && s[1] == b@[pos + 1] && s[2] == b@[pos + 2] && s[3]
                == b@[pos + 3]);
        }
        Some((v, pos + 4))
    } else {
        None
    }
}

/// Reads a fixed-width 8-byte little-endian integer.
pub fn read_u64(b: &Vec<u8>, pos: usize) -> (r: Option<(u64, usize)>)
    ensures
        (match r {
            Some((v, end)) => dec_u64(b@, pos as int) == Some((v, end as int)),
            None => dec_u64(b@, pos as int) is None,
        }),
{
    if 8 <= b.len() && pos <= b.len() - 8 {
        let v: u64 = b[pos] as u64 + (b[pos + 1] as u64) * 0x100 + (b[pos + 2] as u64) * 0x10000
            + (b[pos + 3] as u64) * 0x1000000 + (b[pos + 4] as u64) * 0x100000000 + (b[pos
            + 5] as u64) * 0x10000000000 + (b[pos + 6] as u64) * 0x1000000000000 + (b[pos
            + 7] as u64) * 0x100000000000000;
        proof {
            let s = b@.subrange(pos as int, pos + 8);
            assert(s[0] == b@[pos as int] && s[1] == b@[pos + 1] && s[2] == b@[pos + 2] && s[3]
                == b@[pos + 3] && s[4] == b@[pos + 4] && s[5] == b@[pos + 5] && s[6] == b@[pos + 6]
                && s[7] == b@[pos + 7]);
        }
        Some((v, pos + 8))
    } else {
        None
    }
}

/// Reads a compact unsigned integer.
pub fn read_compact_u32(b: &Vec<u8>, pos: usize) -> (r: Option<(u32, usize)>)
    ensures
        (match r {
            Some((v, end)) => dec_compact_u32(b@, pos as int) == Some((v, end as int)),
            None => dec_compact_u32(b@, pos as int) is None,
        }),
{
    if pos >= b.len() {
        return None;
    }
    let b0 = b[pos];
    let mode = b0 % 4;
    if mode == 0 {
        Some(((b0 / 4) as u32, pos + 1))
    } else if mode == 1 {
        if 2 <= b.len() && pos <= b.len() - 2 {
            let v: u32 = (b[pos] as u32 + (b[pos + 1] as u32) * 0x100) / 4;
            if v >= 64 {
                Some((v, pos + 2))
            } else {
                None
            }
        } else {
            None
        }
    } else if mode == 2 {
        if 4 <= b.len() && pos <= b.len() - 4 {
            let v: u32 = (b[pos] as u32 + (b[pos + 1] as u32) * 0x100 + (b[pos + 2] as u32)
                * 0x10000 + (b[pos + 3] as u32) * 0x1000000) / 4;
            if v >= 16384 {
                Some((v, pos + 4))
            } else {
                None
            }
        } else {
            None
        }
    } else {
        if b0 == 3 && 5 <= b.len() && pos <= b.len() - 5 {
            let v: u32 = b[pos + 1] as u32 + (b[pos + 2] as u32) * 0x100 + (b[pos + 3] as u32)
                * 0x10000 + (b[pos + 4] as u32) * 0x1000000;
            if v > 0x3FFFFFFF {
                Some((v, pos + 5))
            } else {
                None
            }
        } else {
            None
        }
    }
}

/// Reverses a byte vector.
pub fn rev_bytes(v: &Vec<u8>) -> (r: Vec<u8>)
    ensures
        r@ == rev(v@),
{
    let mut out: Vec<u8> = Vec::new();
    let mut i: usize = v.len();
    while i > 0
        invariant
            i <= v@.len(),
            out@.len() == v@.len() - i,
            forall|j: int| 0 <= j < out@.len() ==> out@[j] == v@[v@.len() - 1 - j],
        decreases i,
    {
        i = i - 1;
        out.push(v[i]);
    }
    assert(out@ =~= rev(v@));
    out
}

/// Reads a 256-bit quantity into big-endian order.
pub fn read_u256(b: &Vec<u8>, pos: usize) -> (r: Option<(U256, usize)>)
    ensures
        (match r {
            Some((v, end)) => dec_u256(b@, pos as int) == Some((v@, end as int)) && v.wf(),
            None => dec_u256(b@, pos as int) is None,
        }),
{
    match read_bytes(b, pos, 32) {
        Some((raw, end)) => {
            let be = rev_bytes(&raw);
            Some((U256 { bytes: be }, end))
        },
        None => None,
    }
}

/// Reads a 32-byte hash.
pub fn read_h256(b: &Vec<u8>, pos: usize) -> (r: Option<(H256, usize)>)
    ensures
        (match r {
            Some((v, end)) => dec_bytes(b@, pos as int, 32) == Some((v@, end as int)) && v.wf(),
            None => dec_bytes(b@, pos as int, 32) is None,
        }),
{
    match read_bytes(b, pos, 32) {
        Some((raw, end)) => Some((H256 { bytes: raw }, end)),
        None => None,
    }
}

/// Reads a 20-byte address.
pub fn read_address(b: &Vec<u8>, pos: usize) -> (r: Option<(Address, usize)>)
    ensures
        (match r {
            Some((v, end)) => dec_bytes(b@, pos as int, 20) == Some((v@, end as int)) && v.wf(),
            None => dec_bytes(b@, pos as int, 20) is None,
        }),
{
    match read_bytes(b, pos, 20) {
        Some((raw, end)) => Some((Address { bytes: raw }, end)),
        None => None,
    }
}

/// Reads a 256-byte logs bloom filter.
pub fn read_bloom(b: &Vec<u8>, pos: usize) -> (r: Option<(Bloom, usize)>)
    ensures
        (match r {
            Some((v, end)) => dec_bytes(b@, pos as int, 256) == Some((v@, end as int)) && v.wf(),
            None => dec_bytes(b@, pos as int, 256) is None,
        }),
{
    match read_bytes(b, pos, 256) {
        Some((raw, end)) => Some((Bloom { bytes: raw }, end)),
        None => None,
    }
}

/// Reads a length-prefixed byte vector.
pub fn read_byte_vec(b: &Vec<u8>, pos: usize) -> (r: Option<(Vec<u8>, usize)>)
    ensures
        (match r {
            Some((v, end)) => dec_byte_vec(b@, pos as int) == Some((v@, end as int)),
            None => dec_byte_vec(b@, pos as int) is None,
        }),
{
    match read_compact_u32(b, pos) {
        Some((n, p)) => {
            if n as usize <= b.len() {
                read_bytes(b, p, n as usize)
            } else {
                // more bytes asked for than the input holds
                assert(dec_bytes(b@, p as int, n as int) is None);
                None
            }
        },
        None => None,
    }
}

/// The view of an optional address.
pub open spec fn opt_address_view(a: Option<Address>) -> Option<Seq<u8>> {
    match a {
        Some(x) => Some(x@),
        None => None,
    }
}

/// Reads an optional 20-byte address.
pub fn read_opt_address(b: &Vec<u8>, pos: usize) -> (r: Option<(Option<Address>, usize)>)
    ensures
        (match r {
            Some((v, end)) => dec_opt_address(b@, pos as int) == Some((opt_address_view(v), end as int))
                && (v matches Some(a) ==> a.wf()),
            None => dec_opt_address(b@, pos as int) is None,
        }),
{
    if pos >= b.len() {
        return None;
    }
    let tag = b[pos];
    if tag == 0 {
        Some((None, pos + 1))
    } else if tag == 1 {
        match read_address(b, pos + 1) {
            Some((a, end)) => Some((Some(a), end)),
            None => None,
        }
    } else {
        None
    }
}

// ---------------------------------------------------------------------------
// Specification-level decoding: composites
// ---------------------------------------------------------------------------

/// Reads `n` consecutive 32-byte hashes.
pub open spec fn dec_h256_items(b: Seq<u8>, pos: int, n: int) -> Option<(Seq<Seq<u8>>, int)>
    decreases n,
{
    if n <= 0 {
        Some((Seq::<Seq<u8>>::empty(), pos))
    } else {
        match dec_bytes(b, pos, 32) {
            Some((h, p)) => match dec_h256_items(b, p, n - 1) {
                Some((rest, end)) => Some((seq![h] + rest, end)),
                None => None,
            },
            None => None,
        }
    }
}

/// Reads one event log entry: address, topic list, data.
pub open spec fn dec_log(b: Seq<u8>, pos: int) -> Option<(GLog, int)> {
    match dec_bytes(b, pos, 20) {
        Some((addr, p1)) => match dec_compact_u32(b, p1) {
            Some((n, p2)) => match dec_h256_items(b, p2, n as int) {
                Some((topics, p3)) => match dec_byte_vec(b, p3) {
                    Some((data, p4)) => Some(
                        (GLog { address: addr, topics: topics, data: data }, p4),
                    ),
                    None => None,
                },
                None => None,
            },
            None => None,
        },
        None => None,
    }
}

/// Reads `n` consecutive log entries.
pub open spec fn dec_log_items(b: Seq<u8>, pos: int, n: int) -> Option<(Seq<GLog>, int)>
    decreases n,
{
    if n <= 0 {
        Some((Seq::<GLog>::empty(), pos))
    } else {
        match dec_log(b, pos) {
            Some((l, p)) => match dec_log_items(b, p, n - 1) {
                Some((rest, end)) => Some((seq![l] + rest, end)),
                None => None,
            },
            None => None,
        }
    }
}

/// Reads one legacy receipt: state root sentinel, gas used, bloom, logs.
pub open spec fn dec_legacy_receipt(b: Seq<u8>, pos: int) -> Option<(GLegacyReceipt, int)> {
    match dec_bytes(b, pos, 32) {
        Some((root, p1)) => match dec_u256(b, p1) {
            Some((gas, p2)) => match dec_bytes(b, p2, 256) {
                Some((bloom, p3)) => match dec_compact_u32(b, p3) {
                    Some((n, p4)) => match dec_log_items(b, p4, n as int) {
                        Some((logs, p5)) => Some(
                            (
                                GLegacyReceipt {
                                    state_root: root,
                                    used_gas: gas,
                                    logs_bloom: bloom,
                                    logs: logs,
                                },
                                p5,
                            ),
                        ),
                        None => None,
                    },
                    None => None,
                },
                None => None,
            },
            None => None,
        },
        None => None,
    }
}

/// Reads `n` consecutive legacy receipts.
pub open spec fn dec_receipt_items(b: Seq<u8>, pos: int, n: int) -> Option<
    (Seq<GLegacyReceipt>, int),
>
    decreases n,
{
    if n <= 0 {
        Some((Seq::<GLegacyReceipt>::empty(), pos))
    } else {
        match dec_legacy_receipt(b, pos) {
            Some((r, p)) => match dec_receipt_items(b, p, n - 1) {
                Some((rest, end)) => Some((seq![r] + rest, end)),
                None => None,
            },
            None => None,
        }
    }
}

/// Reads one per-transaction status record.
pub open spec fn dec_status(b: Seq<u8>, pos: int) -> Option<(GTransactionStatus, int)> {
    match dec_bytes(b, pos, 32) {
        Some((hash, p1)) => match dec_u32(b, p1) {
            Some((index, p2)) => match dec_bytes(b, p2, 20) {
                Some((from, p3)) => match dec_opt_address(b, p3) {
                    Some((to, p4)) => match dec_opt_address(b, p4) {
                        Some((contract, p5)) => match dec_compact_u32(b, p5) {
                            Some((n, p6)) => match dec_log_items(b, p6, n as int) {
                                Some((logs, p7)) => match dec_bytes(b, p7, 256) {
                                    Some((bloom, p8)) => Some(
                                        (
                                            GTransactionStatus {
                                                transaction_hash: hash,
                                                transaction_index: index,
                                                from: from,
                                                to: to,
                                                contract_address: contract,
                                                logs: logs,
                                                logs_bloom: bloom,
                                            },
                                            p8,
                                        ),
                                    ),
                                    None => None,
                                },
                                None => None,
                            },
                            None => None,
                        },
                        None => None,
                    },
                    None => None,
                },
                None => None,
            },
            None => None,
        },
        None => None,
    }
}

/// Reads `n` consecutive status records.
pub open spec fn dec_status_items(b: Seq<u8>, pos: int, n: int) -> Option<
    (Seq<GTransactionStatus>, int),
>
    decreases n,
{
    if n <= 0 {
        Some((Seq::<GTransactionStatus>::empty(), pos))
    } else {
        match dec_status(b, pos) {
            Some((s, p)) => match dec_status_items(b, p, n - 1) {
                Some((rest, end)) => Some((seq![s] + rest, end)),
                None => None,
            },
            None => None,
        }
    }
}

/// Reads a transaction target: a tagged call address or a creation marker.
pub open spec fn dec_action(b: Seq<u8>, pos: int) -> Option<(GTransactionAction, int)> {
    if 0 <= pos && pos < b.len() {
        if b[pos] == 0 {
            match dec_bytes(b, pos + 1, 20) {
                Some((a, p)) => Some((GTransactionAction::Call(a), p)),
                None => None,
            }
        } else if b[pos] == 1 {
            Some((GTransactionAction::Create, pos + 1))
        } else {
            None
        }
    } else {
        None
    }
}

/// Reads a legacy transaction signature: recovery id, r, s.
pub open spec fn dec_signature(b: Seq<u8>, pos: int) -> Option<(GTransactionSignature, int)> {
    match dec_u64(b, pos) {
        Some((v, p1)) => match dec_bytes(b, p1, 32) {
            Some((r, p2)) => match dec_bytes(b, p2, 32) {
                Some((s, p3)) => Some((GTransactionSignature { v: v, r: r, s: s }, p3)),
                None => None,
            },
            None => None,
        },
        None => None,
    }
}

/// Reads one legacy transaction.
pub open spec fn dec_legacy_transaction(b: Seq<u8>, pos: int) -> Option<
    (GLegacyTransaction, int),
> {
    match dec_u256(b, pos) {
        Some((nonce, p1)) => match dec_u256(b, p1) {
            Some((gas_price, p2)) => match dec_u256(b, p2) {
                Some((gas_limit, p3)) => match dec_action(b, p3) {
                    Some((action, p4)) => match dec_u256(b, p4) {
                        Some((value, p5)) => match dec_byte_vec(b, p5) {
                            Some((input, p6)) => match dec_signature(b, p6) {
                                Some((sig, p7)) => Some(
                                    (
                                        GLegacyTransaction {
                                            nonce: nonce,
                                            gas_price: gas_price,
                                            gas_limit: gas_limit,
                                            action: action,
                                            value: value,
                                            input: input,
                                            signature: sig,
                                        },
                                        p7,
                                    ),
                                ),
                                None => None,
                            },
                            None => None,
                        },
                        None => None,
                    },
                    None => None,
                },
                None => None,
            },
            None => None,
        },
        None => None,
    }
}

/// Reads `n` consecutive legacy transactions.
pub open spec fn dec_transaction_items(b: Seq<u8>, pos: int, n: int) -> Option<
    (Seq<GLegacyTransaction>, int),
>
    decreases n,
{
    if n <= 0 {
        Some((Seq::<GLegacyTransaction>::empty(), pos))
    } else {
        match dec_legacy_transaction(b, pos) {
            Some((t, p)) => match dec_transaction_items(b, p, n - 1) {
                Some((rest, end)) => Some((seq![t] + rest, end)),
                None => None,
            },
            None => None,
        }
    }
}

/// Reads a block header.
pub open spec fn dec_header(b: Seq<u8>, pos: int) -> Option<(GHeader, int)> {
    match dec_bytes(b, pos, 32) {
        Some((parent_hash, p1)) => match dec_bytes(b, p1, 32) {
            Some((ommers_hash, p2)) => match dec_bytes(b, p2, 20) {
                Some((beneficiary, p3)) => match dec_bytes(b, p3, 32) {
                    Some((state_root, p4)) => match dec_bytes(b, p4, 32) {
                        Some((transactions_root, p5)) => match dec_bytes(b, p5, 32) {
                            Some((receipts_root, p6)) => match dec_bytes(b, p6, 256) {
                                Some((logs_bloom, p7)) => match dec_u256(b, p7) {
                                    Some((difficulty, p8)) => match dec_u256(b, p8) {
                                        Some((number, p9)) => match dec_u256(b, p9) {
                                            Some((gas_limit, p10)) => match dec_u256(b, p10) {
                                                Some((gas_used, p11)) => match dec_u64(b, p11) {
                                                    Some((timestamp, p12)) => match dec_byte_vec(
                                                        b,
                                                        p12,
                                                    ) {
                                                        Some((extra_data, p13)) => match dec_bytes(
                                                            b,
                                                            p13,
                                                            32,
                                                        ) {
                                                            Some((mix_hash, p14)) => match dec_bytes(
                                                                b,
                                                                p14,
                                                                8,
                                                            ) {
                                                                Some((nonce, p15)) => Some(
                                                                    (
                                                                        GHeader {
                                                                            parent_hash: parent_hash,
                                                                            ommers_hash: ommers_hash,
                                                                            beneficiary: beneficiary,
                                                                            state_root: state_root,
                                                                            transactions_root:
                                                                                transactions_root,
                                                                            receipts_root:
                                                                                receipts_root,
                                                                            logs_bloom: logs_bloom,
                                                                            difficulty: difficulty,
                                                                            number: number,
                                                                            gas_limit: gas_limit,
                                                                            gas_used: gas_used,
                                                                            timestamp: timestamp,
                                                                            extra_data: extra_data,
                                                                            mix_hash: mix_hash,
                                                                            nonce: nonce,
                                                                        },
                                                                        p15,
                                                                    ),
                                                                ),
                                                                None => None,
                                                            },
                                                            None => None,
                                                        },
                                                        None => None,
                                                    },
                                                    None => None,
                                                },
                                                None => None,
                                            },
                                            None => None,
                                        },
                                        None => None,
                                    },
                                    None => None,
                                },
                                None => None,
                            },
                            None => None,
                        },
                        None => None,
                    },
                    None => None,
                },
                None => None,
            },
            None => None,
        },
        None => None,
    }
}

/// Reads `n` consecutive headers.
pub open spec fn dec_header_items(b: Seq<u8>, pos: int, n: int) -> Option<(Seq<GHeader>, int)>
    decreases n,
{
    if n <= 0 {
        Some((Seq::<GHeader>::empty(), pos))
    } else {
        match dec_header(b, pos) {
            Some((h, p)) => match dec_header_items(b, p, n - 1) {
                Some((rest, end)) => Some((seq![h] + rest, end)),
                None => None,
            },
            None => None,
        }
    }
}

/// Reads a schema-native block: header, legacy transactions, ommers.
pub open spec fn dec_legacy_block(b: Seq<u8>, pos: int) -> Option<(GLegacyBlock, int)> {
    match dec_header(b, pos) {
        Some((header, p1)) => match dec_compact_u32(b, p1) {
            Some((nt, p2)) => match dec_transaction_items(b, p2, nt as int) {
                Some((txs, p3)) => match dec_compact_u32(b, p3) {
                    Some((no, p4)) => match dec_header_items(b, p4, no as int) {
                        Some((ommers, p5)) => Some(
                            (
                                GLegacyBlock { header: header, transactions: txs, ommers: ommers },
                                p5,
                            ),
                        ),
                        None => None,
                    },
                    None => None,
                },
                None => None,
            },
            None => None,
        },
        None => None,
    }
}

// ---------------------------------------------------------------------------
// Executable decoding: composites
// ---------------------------------------------------------------------------

/// Reads `n` consecutive 32-byte hashes.
pub fn read_h256_items(b: &Vec<u8>, pos: usize, n: u32) -> (r: Option<(Vec<H256>, usize)>)
    ensures
        (match r {
            Some((v, end)) => dec_h256_items(b@, pos as int, n as int) == Some(
                (h256s_view(v@), end as int),
            ) && (forall|i: int| 0 <= i < v@.len() ==> (#[trigger] v@[i]).wf()),
            None => dec_h256_items(b@, pos as int, n as int) is None,
        }),
{
    let mut acc: Vec<H256> = Vec::new();
    let mut cur: usize = pos;
    let mut i: u32 = 0;
    while i < n
        invariant
            i <= n,
            acc@.len() == i as int,
            forall|j: int| 0 <= j < acc@.len() ==> (#[trigger] acc@[j]).wf(),
            (match dec_h256_items(b@, cur as int, n - i) {
                Some((rest, end)) => dec_h256_items(b@, pos as int, n as int) == Some(
                    (h256s_view(acc@) + rest, end),
                ),
                None => dec_h256_items(b@, pos as int, n as int) is None,
            }),
        decreases n - i,
    {
        match read_h256(b, cur) {
            Some((h, end)) => {
                proof {
                    assert(h256s_view(acc@.push(h)) =~= h256s_view(acc@).push(h@));
                    match dec_h256_items(b@, end as int, n - i - 1) {
                        Some((rest2, e2)) => {
                            assert(h256s_view(acc@) + (seq![h@] + rest2) =~= h256s_view(
                                acc@,
                            ).push(h@) + rest2);
                        },
                        None => {},
                    }
                }
                acc.push(h);
                cur = end;
                i = i + 1;
            },
            None => {
                return None;
            },
        }
    }
    proof {
        assert(h256s_view(acc@) + Seq::<Seq<u8>>::empty() =~= h256s_view(acc@));
    }
    Some((acc, cur))
}

/// Reads one event log entry.
pub fn read_log(b: &Vec<u8>, pos: usize) -> (r: Option<(Log, usize)>)
    ensures
        (match r {
            Some((v, end)) => dec_log(b@, pos as int) == Some((v@, end as int)) && v.wf(),
            None => dec_log(b@, pos as int) is None,
        }),
{
    let (addr, p1) = match read_address(b, pos) {
        Some(x) => x,
        None => {
            return None;
        },
    };
    let (n, p2) = match read_compact_u32(b, p1) {
        Some(x) => x,
        None => {
            return None;
        },
    };
    let (topics, p3) = match read_h256_items(b, p2, n) {
        Some(x) => x,
        None => {
            return None;
        },
    };
    let (data, p4) = match read_byte_vec(b, p3) {
        Some(x) => x,
        None => {
            return None;
        },
    };
    let l = Log { address: addr, topics: topics, data: data };
    proof {
        assert forall|i: int| 0 <= i < l@.topics.len() implies crate::types::word_wf(
            #[trigger] l@.topics[i],
        ) by {
            assert(l.topics@[i].wf());
        }
    }
    Some((l, p4))
}

/// Reads `n` consecutive log entries.
pub fn read_log_items(b: &Vec<u8>, pos: usize, n: u32) -> (r: Option<(Vec<Log>, usize)>)
    ensures
        (match r {
            Some((v, end)) => dec_log_items(b@, pos as int, n as int) == Some(
                (logs_view(v@), end as int),
            ) && (forall|i: int| 0 <= i < v@.len() ==> (#[trigger] v@[i]).wf()),
            None => dec_log_items(b@, pos as int, n as int) is None,
        }),
{
    let mut acc: Vec<Log> = Vec::new();
    let mut cur: usize = pos;
    let mut i: u32 = 0;
    while i < n
        invariant
            i <= n,
            acc@.len() == i as int,
            forall|j: int| 0 <= j < acc@.len() ==> (#[trigger] acc@[j]).wf(),
            (match dec_log_items(b@, cur as int, n - i) {
                Some((rest, end)) => dec_log_items(b@, pos as int, n as int) == Some(
                    (logs_view(acc@) + rest, end),
                ),
                None => dec_log_items(b@, pos as int, n as int) is None,
            }),
        decreases n - i,
    {
        match read_log(b, cur) {
            Some((l, end)) => {
                proof {
                    assert(logs_view(acc@.push(l)) =~= logs_view(acc@).push(l@));
                    match dec_log_items(b@, end as int, n - i - 1) {
                        Some((rest2, e2)) => {
                            assert(logs_view(acc@) + (seq![l@] + rest2) =~= logs_view(acc@).push(
                                l@,
                            ) + rest2);
                        },
                        None => {},
                    }
                }
                acc.push(l);
                cur = end;
                i = i + 1;
            },
            None => {
                return None;
            },
        }
    }
    proof {
        assert(logs_view(acc@) + Seq::<GLog>::empty() =~= logs_view(acc@));
    }
    Some((acc, cur))
}

/// Reads one legacy receipt.
pub fn read_legacy_receipt(b: &Vec<u8>, pos: usize) -> (r: Option<(LegacyReceipt, usize)>)
    ensures
        (match r {
            Some((v, end)) => dec_legacy_receipt(b@, pos as int) == Some((v@, end as int))
                && v.wf(),
            None => dec_legacy_receipt(b@, pos as int) is None,
        }),
{
    let (root, p1) = match read_h256(b, pos) {
        Some(x) => x,
        None => {
            return None;
        },
    };
    let (gas, p2) = match read_u256(b, p1) {
        Some(x) => x,
        None => {
            return None;
        },
    };
    let (bloom, p3) = match read_bloom(b, p2) {
        Some(x) => x,
        None => {
            return None;
        },
    };
    let (n, p4) = match read_compact_u32(b, p3) {
        Some(x) => x,
        None => {
            return None;
        },
    };
    let (logs, p5) = match read_log_items(b, p4, n) {
        Some(x) => x,
        None => {
            return None;
        },
    };
    let rec = LegacyReceipt { state_root: root, used_gas: gas, logs_bloom: bloom, logs: logs };
    proof {
        assert forall|i: int| 0 <= i < rec@.logs.len() implies crate::types::glog_wf(
            #[trigger] rec@.logs[i],
        ) by {
            assert(rec.logs@[i].wf());
        }
    }
    Some((rec, p5))
}

/// Reads `n` consecutive legacy receipts.
pub fn read_receipt_items(b: &Vec<u8>, pos: usize, n: u32) -> (r: Option<
    (Vec<LegacyReceipt>, usize),
>)
    ensures
        (match r {
            Some((v, end)) => dec_receipt_items(b@, pos as int, n as int) == Some(
                (legacy_receipts_view(v@), end as int),
            ) && (forall|i: int| 0 <= i < v@.len() ==> (#[trigger] v@[i]).wf()),
            None => dec_receipt_items(b@, pos as int, n as int) is None,
        }),
{
    let mut acc: Vec<LegacyReceipt> = Vec::new();
    let mut cur: usize = pos;
    let mut i: u32 = 0;
    while i < n
        invariant
            i <= n,
            acc@.len() == i as int,
            forall|j: int| 0 <= j < acc@.len() ==> (#[trigger] acc@[j]).wf(),
            (match dec_receipt_items(b@, cur as int, n - i) {
                Some((rest, end)) => dec_receipt_items(b@, pos as int, n as int) == Some(
                    (legacy_receipts_view(acc@) + rest, end),
                ),
                None => dec_receipt_items(b@, pos as int, n as int) is None,
            }),
        decreases n - i,
    {
        match read_legacy_receipt(b, cur) {
            Some((x, end)) => {
                proof {
                    assert(legacy_receipts_view(acc@.push(x)) =~= legacy_receipts_view(acc@).push(
                        x@,
                    ));
                    match dec_receipt_items(b@, end as int, n - i - 1) {
                        Some((rest2, e2)) => {
                            assert(legacy_receipts_view(acc@) + (seq![x@] + rest2)
                                =~= legacy_receipts_view(acc@).push(x@) + rest2);
                        },
                        None => {},
                    }
                }
                acc.push(x);
                cur = end;
                i = i + 1;
            },
            None => {
                return None;
            },
        }
    }
    proof {
        assert(legacy_receipts_view(acc@) + Seq::<GLegacyReceipt>::empty() =~= legacy_receipts_view(
            acc@,
        ));
    }
    Some((acc, cur))
}

/// Reads one per-transaction status record.
pub fn read_status(b: &Vec<u8>, pos: usize) -> (r: Option<(TransactionStatus, usize)>)
    ensures
        (match r {
            Some((v, end)) => dec_status(b@, pos as int) == Some((v@, end as int)) && v.wf(),
            None => dec_status(b@, pos as int) is None,
        }),
{
    let (hash, p1) = match read_h256(b, pos) {
        Some(x) => x,
        None => {
            return None;
        },
    };
    let (index, p2) = match read_u32(b, p1) {
        Some(x) => x,
        None => {
            return None;
        },
    };
    let (from, p3) = match read_address(b, p2) {
        Some(x) => x,
        None => {
            return None;
        },
    };
    let (to, p4) = match read_opt_address(b, p3) {
        Some(x) => x,
        None => {
            return None;
        },
    };
    let (contract, p5) = match read_opt_address(b, p4) {
        Some(x) => x,
        None => {
            return None;
        },
    };
    let (n, p6) = match read_compact_u32(b, p5) {
        Some(x) => x,
        None => {
            return None;
        },
    };
    let (logs, p7) = match read_log_items(b, p6, n) {
        Some(x) => x,
        None => {
            return None;
        },
    };
    let (bloom, p8) = match read_bloom(b, p7) {
        Some(x) => x,
        None => {
            return None;
        },
    };
    let st = TransactionStatus {
        transaction_hash: hash,
        transaction_index: index,
        from: from,
        to: to,
        contract_address: contract,
        logs: logs,
        logs_bloom: bloom,
    };
    proof {
        assert forall|i: int| 0 <= i < st@.logs.len() implies crate::types::glog_wf(
            #[trigger] st@.logs[i],
        ) by {
            assert(st.logs@[i].wf());
        }
    }
    Some((st, p8))
}

/// Reads `n` consecutive status records.
pub fn read_status_items(b: &Vec<u8>, pos: usize, n: u32) -> (r: Option<
    (Vec<TransactionStatus>, usize),
>)
    ensures
        (match r {
            Some((v, end)) => dec_status_items(b@, pos as int, n as int) == Some(
                (statuses_view(v@), end as int),
            ) && (forall|i: int| 0 <= i < v@.len() ==> (#[trigger] v@[i]).wf()),
            None => dec_status_items(b@, pos as int, n as int) is None,
        }),
{
    let mut acc: Vec<TransactionStatus> = Vec::new();
    let mut cur: usize = pos;
    let mut i: u32 = 0;
    while i < n
        invariant
            i <= n,
            acc@.len() == i as int,
            forall|j: int| 0 <= j < acc@.len() ==> (#[trigger] acc@[j]).wf(),
            (match dec_status_items(b@, cur as int, n - i) {
                Some((rest, end)) => dec_status_items(b@, pos as int, n as int) == Some(
                    (statuses_view(acc@) + rest, end),
                ),
                None => dec_status_items(b@, pos as int, n as int) is None,
            }),
        decreases n - i,
    {
        match read_status(b, cur) {
            Some((x, end)) => {
                proof {
                    assert(statuses_view(acc@.push(x)) =~= statuses_view(acc@).push(x@));
                    match dec_status_items(b@, end as int, n - i - 1) {
                        Some((rest2, e2)) => {
                            assert(statuses_view(acc@) + (seq![x@] + rest2) =~= statuses_view(
                                acc@,
                            ).push(x@) + rest2);
                        },
                        None => {},
                    }
                }
                acc.push(x);
                cur = end;
                i = i + 1;
            },
            None => {
                return None;
            },
        }
    }
    proof {
        assert(statuses_view(acc@) + Seq::<GTransactionStatus>::empty() =~= statuses_view(acc@));
    }
    Some((acc, cur))
}

/// Reads a transaction target.
pub fn read_action(b: &Vec<u8>, pos: usize) -> (r: Option<(TransactionAction, usize)>)
    ensures
        (match r {
            Some((v, end)) => dec_action(b@, pos as int) == Some((v@, end as int)) && v.wf(),
            None => dec_action(b@, pos as int) is None,
        }),
{
    if pos >= b.len() {
        return None;
    }
    let tag = b[pos];
    if tag == 0 {
        match read_address(b, pos + 1) {
            Some((a, end)) => Some((TransactionAction::Call(a), end)),
            None => None,
        }
    } else if tag == 1 {
        Some((TransactionAction::Create, pos + 1))
    } else {
        None
    }
}

/// Reads a legacy transaction signature.
pub fn read_signature(b: &Vec<u8>, pos: usize) -> (r: Option<(TransactionSignature, usize)>)
    ensures
        (match r {
            Some((v, end)) => dec_signature(b@, pos as int) == Some((v@, end as int)) && v.wf(),
            None => dec_signature(b@, pos as int) is None,
        }),
{
    let (v, p1) = match read_u64(b, pos) {
        Some(x) => x,
        None => {
            return None;
        },
    };
    let (rr, p2) = match read_h256(b, p1) {
        Some(x) => x,
        None => {
            return None;
        },
    };
    let (ss, p3) = match read_h256(b, p2) {
        Some(x) => x,
        None => {
            return None;
        },
    };
    Some((TransactionSignature { v: v, r: rr, s: ss }, p3))
}

/// Reads one legacy transaction.
pub fn read_legacy_transaction(b: &Vec<u8>, pos: usize) -> (r: Option<(LegacyTransaction, usize)>)
    ensures
        (match r {
            Some((v, end)) => dec_legacy_transaction(b@, pos as int) == Some((v@, end as int))
                && v.wf(),
            None => dec_legacy_transaction(b@, pos as int) is None,
        }),
{
    let (nonce, p1) = match read_u256(b, pos) {
        Some(x) => x,
        None => {
            return None;
        },
    };
    let (gas_price, p2) = match read_u256(b, p1) {
        Some(x) => x,
        None => {
            return None;
        },
    };
    let (gas_limit, p3) = match read_u256(b, p2) {
        Some(x) => x,
        None => {
            return None;
        },
    };
    let (action, p4) = match read_action(b, p3) {
        Some(x) => x,
        None => {
            return None;
        },
    };
    let (value, p5) = match read_u256(b, p4) {
        Some(x) => x,
        None => {
            return None;
        },
    };
    let (input, p6) = match read_byte_vec(b, p5) {
        Some(x) => x,
        None => {
            return None;
        },
    };
    let (sig, p7) = match read_signature(b, p6) {
        Some(x) => x,
        None => {
            return None;
        },
    };
    let tx = LegacyTransaction {
        nonce: nonce,
        gas_price: gas_price,
        gas_limit: gas_limit,
        action: action,
        value: value,
        input: input,
        signature: sig,
    };
    Some((tx, p7))
}

/// Reads `n` consecutive legacy transactions.
pub fn read_transaction_items(b: &Vec<u8>, pos: usize, n: u32) -> (r: Option<
    (Vec<LegacyTransaction>, usize),
>)
    ensures
        (match r {
            Some((v, end)) => dec_transaction_items(b@, pos as int, n as int) == Some(
                (legacy_txs_view(v@), end as int),
            ) && (forall|i: int| 0 <= i < v@.len() ==> (#[trigger] v@[i]).wf()),
            None => dec_transaction_items(b@, pos as int, n as int) is None,
        }),
{
    let mut acc: Vec<LegacyTransaction> = Vec::new();
    let mut cur: usize = pos;
    let mut i: u32 = 0;
    while i < n
        invariant
            i <= n,
            acc@.len() == i as int,
            forall|j: int| 0 <= j < acc@.len() ==> (#[trigger] acc@[j]).wf(),
            (match dec_transaction_items(b@, cur as int, n - i) {
                Some((rest, end)) => dec_transaction_items(b@, pos as int, n as int) == Some(
                    (legacy_txs_view(acc@) + rest, end),
                ),
                None => dec_transaction_items(b@, pos as int, n as int) is None,
            }),
        decreases n - i,
    {
        match read_legacy_transaction(b, cur) {
            Some((x, end)) => {
                proof {
                    assert(legacy_txs_view(acc@.push(x)) =~= legacy_txs_view(acc@).push(x@));
                    match dec_transaction_items(b@, end as int, n - i - 1) {
                        Some((rest2, e2)) => {
                            assert(legacy_txs_view(acc@) + (seq![x@] + rest2) =~= legacy_txs_view(
                                acc@,
                            ).push(x@) + rest2);
                        },
                        None => {},
                    }
                }
                acc.push(x);
                cur = end;
                i = i + 1;
            },
            None => {
                return None;
            },
        }
    }
    proof {
        assert(legacy_txs_view(acc@) + Seq::<GLegacyTransaction>::empty() =~= legacy_txs_view(
            acc@,
        ));
    }
    Some((acc, cur))
}

/// Reads a block header.
pub fn read_header(b: &Vec<u8>, pos: usize) -> (r: Option<(Header, usize)>)
    ensures
        (match r {
            Some((v, end)) => dec_header(b@, pos as int) == Some((v@, end as int)) && v.wf(),
            None => dec_header(b@, pos as int) is None,
        }),
{
    let (parent_hash, p1) = match read_h256(b, pos) {
        Some(x) => x,
        None => {
            return None;
        },
    };
    let (ommers_hash, p2) = match read_h256(b, p1) {
        Some(x) => x,
        None => {
            return None;
        },
    };
    let (beneficiary, p3) = match read_address(b, p2) {
        Some(x) => x,
        None => {
            return None;
        },
    };
    let (state_root, p4) = match read_h256(b, p3) {
        Some(x) => x,
        None => {
            return None;
        },
    };
    let (transactions_root, p5) = match read_h256(b, p4) {
        Some(x) => x,
        None => {
            return None;
        },
    };
    let (receipts_root, p6) = match read_h256(b, p5) {
        Some(x) => x,
        None => {
            return None;
        },
    };
    let (logs_bloom, p7) = match read_bloom(b, p6) {
        Some(x) => x,
        None => {
            return None;
        },
    };
    let (difficulty, p8) = match read_u256(b, p7) {
        Some(x) => x,
        None => {
            return None;
        },
    };
    let (number, p9) = match read_u256(b, p8) {
        Some(x) => x,
        None => {
            return None;
        },
    };
    let (gas_limit, p10) = match read_u256(b, p9) {
        Some(x) => x,
        None => {
            return None;
        },
    };
    let (gas_used, p11) = match read_u256(b, p10) {
        Some(x) => x,
        None => {
            return None;
        },
    };
    let (timestamp, p12) = match read_u64(b, p11) {
        Some(x) => x,
        None => {
            return None;
        },
    };
    let (extra_data, p13) = match read_byte_vec(b, p12) {
        Some(x) => x,
        None => {
            return None;
        },
    };
    let (mix_hash, p14) = match read_h256(b, p13) {
        Some(x) => x,
        None => {
            return None;
        },
    };
    let (nonce, p15) = match read_bytes(b, p14, 8) {
        Some(x) => x,
        None => {
            return None;
        },
    };
    let h = Header {
        parent_hash: parent_hash,
        ommers_hash: ommers_hash,
        beneficiary: beneficiary,
        state_root: state_root,
        transactions_root: transactions_root,
        receipts_root: receipts_root,
        logs_bloom: logs_bloom,
        difficulty: difficulty,
        number: number,
        gas_limit: gas_limit,
        gas_used: gas_used,
        timestamp: timestamp,
        extra_data: extra_data,
        mix_hash: mix_hash,
        nonce: nonce,
    };
    Some((h, p15))
}

/// Reads `n` consecutive headers.
pub fn read_header_items(b: &Vec<u8>, pos: usize, n: u32) -> (r: Option<(Vec<Header>, usize)>)
    ensures
        (match r {
            Some((v, end)) => dec_header_items(b@, pos as int, n as int) == Some(
                (headers_view(v@), end as int),
            ) && (forall|i: int| 0 <= i < v@.len() ==> (#[trigger] v@[i]).wf()),
            None => dec_header_items(b@, pos as int, n as int) is None,
        }),
{
    let mut acc: Vec<Header> = Vec::new();
    let mut cur: usize = pos;
    let mut i: u32 = 0;
    while i < n
        invariant
            i <= n,
            acc@.len() == i as int,
            forall|j: int| 0 <= j < acc@.len() ==> (#[trigger] acc@[j]).wf(),
            (match dec_header_items(b@, cur as int, n - i) {
                Some((rest, end)) => dec_header_items(b@, pos as int, n as int) == Some(
                    (headers_view(acc@) + rest, end),
                ),
                None => dec_header_items(b@, pos as int, n as int) is None,
            }),
        decreases n - i,
    {
        match read_header(b, cur) {
            Some((x, end)) => {
                proof {
                    assert(headers_view(acc@.push(x)) =~= headers_view(acc@).push(x@));
                    match dec_header_items(b@, end as int, n - i - 1) {
                        Some((rest2, e2)) => {
                            assert(headers_view(acc@) + (seq![x@] + rest2) =~= headers_view(
                                acc@,
                            ).push(x@) + rest2);
                        },
                        None => {},
                    }
                }
                acc.push(x);
                cur = end;
                i = i + 1;
            },
            None => {
                return None;
            },
        }
    }
    proof {
        assert(headers_view(acc@) + Seq::<GHeader>::empty() =~= headers_view(acc@));
    }
    Some((acc, cur))
}

/// Reads a schema-native block.
pub fn read_legacy_block(b: &Vec<u8>, pos: usize) -> (r: Option<(LegacyBlock, usize)>)
    ensures
        (match r {
            Some((v, end)) => dec_legacy_block(b@, pos as int) == Some((v@, end as int)) && v.wf(),
            None => dec_legacy_block(b@, pos as int) is None,
        }),
{
    let (header, p1) = match read_header(b, pos) {
        Some(x) => x,
        None => {
            return None;
        },
    };
    let (nt, p2) = match read_compact_u32(b, p1) {
        Some(x) => x,
        None => {
            return None;
        },
    };
    let (txs, p3) = match read_transaction_items(b, p2, nt) {
        Some(x) => x,
        None => {
            return None;
        },
    };
    let (no, p4) = match read_compact_u32(b, p3) {
        Some(x) => x,
        None => {
            return None;
        },
    };
    let (ommers, p5) = match read_header_items(b, p4, no) {
        Some(x) => x,
        None => {
            return None;
        },
    };
    let blk = LegacyBlock { header: header, transactions: txs, ommers: ommers };
    proof {
        assert forall|i: int|
            0 <= i < blk@.transactions.len() implies crate::types::glegacy_transaction_wf(
            #[trigger] blk@.transactions[i],
        ) by {
            assert(blk.transactions@[i].wf());
        }
        assert forall|i: int| 0 <= i < blk@.ommers.len() implies crate::types::gheader_wf(
            #[trigger] blk@.ommers[i],
        ) by {
            assert(blk.ommers@[i].wf());
        }
    }
    Some((blk, p5))
}

// ---------------------------------------------------------------------------
// The value each storage cell holds, as a function of its raw bytes
// ---------------------------------------------------------------------------

/// The 32-byte word a storage cell holds, if its bytes decode.
pub open spec fn storage_word_value(bytes: Seq<u8>) -> Option<Seq<u8>> {
    match dec_bytes(bytes, 0, 32) {
        Some((w, end)) => Some(w),
        None => None,
    }
}

/// The code blob an account-code cell holds, if its bytes decode.
pub open spec fn account_code_value(bytes: Seq<u8>) -> Option<Seq<u8>> {
    match dec_byte_vec(bytes, 0) {
        Some((c, end)) => Some(c),
        None => None,
    }
}

/// The legacy receipt list a receipts cell holds, if its bytes decode.
pub open spec fn receipts_value(bytes: Seq<u8>) -> Option<Seq<GLegacyReceipt>> {
    match dec_compact_u32(bytes, 0) {
        Some((n, p)) => match dec_receipt_items(bytes, p, n as int) {
            Some((rs, end)) => Some(rs),
            None => None,
        },
        None => None,
    }
}

/// The status list a statuses cell holds, if its bytes decode.
pub open spec fn statuses_value(bytes: Seq<u8>) -> Option<Seq<GTransactionStatus>> {
    match dec_compact_u32(bytes, 0) {
        Some((n, p)) => match dec_status_items(bytes, p, n as int) {
            Some((ss, end)) => Some(ss),
            None => None,
        },
        None => None,
    }
}

/// The schema-native block a block cell holds, if its bytes decode.
pub open spec fn legacy_block_value(bytes: Seq<u8>) -> Option<GLegacyBlock> {
    match dec_legacy_block(bytes, 0) {
        Some((blk, end)) => Some(blk),
        None => None,
    }
}

/// Decodes a storage cell holding one 32-byte word.
pub fn decode_storage_word(bytes: &Vec<u8>) -> (r: Option<H256>)
    ensures
        (match r {
            Some(h) => storage_word_value(bytes@) == Some(h@) && h.wf(),
            None => storage_word_value(bytes@) is None,
        }),
{
    match read_h256(bytes, 0) {
        Some((h, end)) => Some(h),
        None => None,
    }
}

/// Decodes a storage cell holding an account's code blob.
pub fn decode_account_code(bytes: &Vec<u8>) -> (r: Option<Vec<u8>>)
    ensures
        (match r {
            Some(c) => account_code_value(bytes@) == Some(c@),
            None => account_code_value(bytes@) is None,
        }),
{
    match read_byte_vec(bytes, 0) {
        Some((c, end)) => Some(c),
        None => None,
    }
}

/// Decodes a storage cell holding the legacy receipt list of a block.
pub fn decode_receipt_list(bytes: &Vec<u8>) -> (r: Option<Vec<LegacyReceipt>>)
    ensures
        (match r {
            Some(v) => receipts_value(bytes@) == Some(legacy_receipts_view(v@)) && (forall|i: int|
                0 <= i < v@.len() ==> (#[trigger] v@[i]).wf()),
            None => receipts_value(bytes@) is None,
        }),
{
    match read_compact_u32(bytes, 0) {
        Some((n, p)) => match read_receipt_items(bytes, p, n) {
            Some((v, end)) => Some(v),
            None => None,
        },
        None => None,
    }
}

/// Decodes a storage cell holding the status list of a block.
pub fn decode_transaction_status_list(bytes: &Vec<u8>) -> (r: Option<Vec<TransactionStatus>>)
    ensures
        (match r {
            Some(v) => statuses_value(bytes@) == Some(statuses_view(v@)) && (forall|i: int|
                0 <= i < v@.len() ==> (#[trigger] v@[i]).wf()),
            None => statuses_value(bytes@) is None,
        }),
{
    match read_compact_u32(bytes, 0) {
        Some((n, p)) => match read_status_items(bytes, p, n) {
            Some((v, end)) => Some(v),
            None => None,
        },
        None => None,
    }
}

/// Decodes a storage cell holding a schema-native block.
pub fn decode_legacy_block(bytes: &Vec<u8>) -> (r: Option<LegacyBlock>)
    ensures
        (match r {
            Some(blk) => legacy_block_value(bytes@) == Some(blk@) && blk.wf(),
            None => legacy_block_value(bytes@) is None,
        }),
{
    match read_legacy_block(bytes, 0) {
        Some((blk, end)) => Some(blk),
        None => None,
    }
}

} // verus!
