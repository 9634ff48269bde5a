//! The override for the first storage schema generation: given a block
//! reference it derives keys, reads the backend, decodes the schema-native
//! shapes and upgrades them into the canonical data model.
//!
//! Every query is a pure, read-only projection: its contract says exactly
//! which storage cell is consulted and what function of that cell's bytes the
//! result is. A missing cell and a cell whose bytes do not decode are both
//! "absent". This generation predates fee-market support, so `base_fee` and
//! `elasticity` are absent for every block and `is_eip1559` is false for
//! every block: the capability is a property of the generation, not of the
//! block asked about.

use vstd::prelude::*;

use crate::backend::{GStorageEntry, StateBackend, lookup};
use crate::keys::{
    account_code_key, account_code_key_of, account_storage_key, account_storage_key_of,
    current_block_key, current_block_key_of, current_receipts_key, current_receipts_key_of,
    current_statuses_key, current_statuses_key_of,
};
use crate::scale::{
    account_code_value, decode_account_code, decode_legacy_block, decode_receipt_list,
    decode_storage_word, decode_transaction_status_list, legacy_block_value, receipts_value,
    statuses_value, storage_word_value,
};
use crate::types::{
    Address, Block, GBlock, GLegacyBlock, GLegacyReceipt, GLegacyTransaction, GReceipt,
    GReceiptData, GTransaction, GTransactionStatus, H256, LegacyBlock, LegacyReceipt,
    LegacyTransaction, Permill, Receipt, ReceiptData, TransactionStatus, Transaction, U256,
    legacy_receipts_view, legacy_txs_view, receipts_view, statuses_view, transactions_view,
};

verus! {

// ---------------------------------------------------------------------------
// Upgrade functions: legacy shapes to the canonical model
// ---------------------------------------------------------------------------

/// The canonical status code a legacy state-root sentinel maps to: the low
/// byte of the sentinel word. Total over every byte sequence, so that no
/// out-of-range legacy value is left undefined; the empty sequence maps to 0.
pub open spec fn legacy_status_code(root: Seq<u8>) -> u8 {
    if root.len() >= 1 {
        root[root.len() - 1]
    } else {
        0
    }
}

/// The canonical receipt a legacy receipt upgrades to: the status code is
/// derived from the state-root sentinel, every other field is carried over,
/// and the result is tagged as the legacy variant of the current shape.
pub open spec fn upgrade_receipt_spec(r: GLegacyReceipt) -> GReceipt {
    GReceipt::Legacy(
        GReceiptData {
            status_code: legacy_status_code(r.state_root),
            used_gas: r.used_gas,
            logs_bloom: r.logs_bloom,
            logs: r.logs,
        },
    )
}

/// The element-wise upgrade of a legacy receipt list; it preserves length and
/// order by construction.
pub open spec fn upgrade_receipts_spec(rs: Seq<GLegacyReceipt>) -> Seq<GReceipt> {
    rs.map_values(|r: GLegacyReceipt| upgrade_receipt_spec(r))
}

/// The canonical form of a legacy transaction: wrapped as the legacy variant
/// of the current transaction shape, fields untouched.
pub open spec fn upgrade_transactions_spec(ts: Seq<GLegacyTransaction>) -> Seq<GTransaction> {
    ts.map_values(|t: GLegacyTransaction| GTransaction::Legacy(t))
}

/// The canonical block a schema-native block upgrades to: the header and
/// ommers are carried over, each transaction is wrapped in the current shape,
/// in order.
pub open spec fn upgrade_block_spec(b: GLegacyBlock) -> GBlock {
    GBlock {
        header: b.header,
        transactions: upgrade_transactions_spec(b.transactions),
        ommers: b.ommers,
    }
}

/// Upgrades one legacy receipt into the canonical shape.
pub fn upgrade_receipt(r: LegacyReceipt) -> (c: Receipt)
    ensures
        c@ == upgrade_receipt_spec(r@),
        r.wf() ==> c.wf(),
{
    let root_len = r.state_root.bytes.len();
    let status_code: u8 = if root_len >= 1 {
        r.state_root.bytes[root_len - 1]
    } else {
        0
    };
    Receipt::Legacy(
        ReceiptData {
            status_code: status_code,
            used_gas: r.used_gas,
            logs_bloom: r.logs_bloom,
            logs: r.logs,
        },
    )
}

/// Upgrades a legacy receipt list, preserving order and length.
pub fn upgrade_receipts(rs: Vec<LegacyReceipt>) -> (c: Vec<Receipt>)
    ensures
        receipts_view(c@) == upgrade_receipts_spec(legacy_receipts_view(rs@)),
        c@.len() == rs@.len(),
        (forall|i: int| 0 <= i < rs@.len() ==> (#[trigger] rs@[i]).wf()) ==> (forall|i: int|
            0 <= i < c@.len() ==> (#[trigger] c@[i]).wf()),
{
    let ghost rs0 = legacy_receipts_view(rs@);
    let ghost all_wf = forall|i: int| 0 <= i < rs@.len() ==> (#[trigger] rs@[i]).wf();
    let mut out: Vec<Receipt> = Vec::new();
    let mut src = rs;
    proof {
        assert(receipts_view(out@) + upgrade_receipts_spec(legacy_receipts_view(src@))
            =~= upgrade_receipts_spec(rs0));
    }
    while src.len() > 0
        invariant
            receipts_view(out@) + upgrade_receipts_spec(legacy_receipts_view(src@))
                == upgrade_receipts_spec(rs0),
            all_wf ==> (forall|i: int| 0 <= i < src@.len() ==> (#[trigger] src@[i]).wf()),
            all_wf ==> (forall|i: int| 0 <= i < out@.len() ==> (#[trigger] out@[i]).wf()),
        decreases src@.len(),
    {
        let ghost src_old = src@;
        let ghost out_old = out@;
        let t = src.remove(0);
        let c = upgrade_receipt(t);
        out.push(c);
        proof {
            assert(src@ =~= src_old.subrange(1, src_old.len() as int));
            assert(legacy_receipts_view(src_old).drop_first() =~= legacy_receipts_view(src@));
            assert(upgrade_receipts_spec(legacy_receipts_view(src_old)) =~= seq![
                upgrade_receipt_spec(t@),
            ] + upgrade_receipts_spec(legacy_receipts_view(src@)));
            assert(receipts_view(out@) =~= receipts_view(out_old).push(c@));
            assert(receipts_view(out_old) + (seq![upgrade_receipt_spec(t@)]
                + upgrade_receipts_spec(legacy_receipts_view(src@))) =~= receipts_view(out@)
                + upgrade_receipts_spec(legacy_receipts_view(src@)));
            if all_wf {
                assert(src_old[0].wf());
                assert forall|i: int| 0 <= i < src@.len() implies (#[trigger] src@[i]).wf() by {
                    assert(src@[i] == src_old[i + 1]);
                }
            }
        }
    }
    proof {
        assert(receipts_view(out@) + upgrade_receipts_spec(legacy_receipts_view(src@))
            =~= receipts_view(out@));
    }
    out
}

/// Upgrades a schema-native block into the canonical shape, wrapping each
/// transaction in order.
pub fn upgrade_block(b: LegacyBlock) -> (c: Block)
    ensures
        c@ == upgrade_block_spec(b@),
        b.wf() ==> c.wf(),
{
    let ghost b0 = b@;
    let ghost all_wf = b.wf();
    let LegacyBlock { header, transactions, ommers } = b;
    let mut out: Vec<Transaction> = Vec::new();
    let mut src = transactions;
    proof {
        assert(transactions_view(out@) + upgrade_transactions_spec(legacy_txs_view(src@))
            =~= upgrade_transactions_spec(b0.transactions));
        if all_wf {
            assert forall|i: int| 0 <= i < src@.len() implies (#[trigger] src@[i]).wf() by {
                assert(b0.transactions[i] == src@[i]@);
            }
        }
    }
    while src.len() > 0
        invariant
            transactions_view(out@) + upgrade_transactions_spec(legacy_txs_view(src@))
                == upgrade_transactions_spec(b0.transactions),
            all_wf ==> (forall|i: int| 0 <= i < src@.len() ==> (#[trigger] src@[i]).wf()),
            all_wf ==> (forall|i: int| 0 <= i < out@.len() ==> (#[trigger] out@[i]).wf()),
        decreases src@.len(),
    {
        let ghost src_old = src@;
        let ghost out_old = out@;
        let t = src.remove(0);
        let c = Transaction::Legacy(t);
        out.push(c);
        proof {
            assert(src@ =~= src_old.subrange(1, src_old.len() as int));
            assert(legacy_txs_view(src_old).drop_first() =~= legacy_txs_view(src@));
            assert(upgrade_transactions_spec(legacy_txs_view(src_old)) =~= seq![
                c@,
            ] + upgrade_transactions_spec(legacy_txs_view(src@)));
            assert(transactions_view(out@) =~= transactions_view(out_old).push(c@));
            assert(transactions_view(out_old) + (seq![c@] + upgrade_transactions_spec(
                legacy_txs_view(src@),
            )) =~= transactions_view(out@) + upgrade_transactions_spec(legacy_txs_view(src@)));
            if all_wf {
                assert(src_old[0].wf());
                assert forall|i: int| 0 <= i < src@.len() implies (#[trigger] src@[i]).wf() by {
                    assert(src@[i] == src_old[i + 1]);
                }
            }
        }
    }
    proof {
        assert(transactions_view(out@) + upgrade_transactions_spec(legacy_txs_view(src@))
            =~= transactions_view(out@));
    }
    let blk = Block { header: header, transactions: out, ommers: ommers };
    proof {
        assert(blk@ =~= upgrade_block_spec(b0));
        if all_wf {
            assert forall|i: int|
                0 <= i < blk@.transactions.len() implies crate::types::gtransaction_wf(
                #[trigger] blk@.transactions[i],
            ) by {
                assert(out@[i].wf());
            }
            assert forall|i: int| 0 <= i < blk@.ommers.len() implies crate::types::gheader_wf(
                #[trigger] blk@.ommers[i],
            ) by {
                assert(blk@.ommers[i] == b0.ommers[i]);
            }
        }
    }
    blk
}

// ---------------------------------------------------------------------------
// The override's queries as functions of the backend state
// ---------------------------------------------------------------------------

/// What `account_code_at` returns: the decoded code cell of the address.
pub open spec fn account_code_spec(state: Seq<GStorageEntry>, block: u64, address: Seq<u8>) -> Option<
    Seq<u8>,
> {
    match lookup(state, block, account_code_key_of(address)) {
        Some(bytes) => account_code_value(bytes),
        None => None,
    }
}

/// What `storage_at` returns: the decoded word of the addressed storage slot.
pub open spec fn storage_at_spec(
    state: Seq<GStorageEntry>,
    block: u64,
    address: Seq<u8>,
    index_be: Seq<u8>,
) -> Option<Seq<u8>> {
    match lookup(state, block, account_storage_key_of(address, index_be)) {
        Some(bytes) => storage_word_value(bytes),
        None => None,
    }
}

/// What `current_block` returns: the decoded block cell, upgraded.
pub open spec fn current_block_spec(state: Seq<GStorageEntry>, block: u64) -> Option<GBlock> {
    match lookup(state, block, current_block_key_of()) {
        Some(bytes) => match legacy_block_value(bytes) {
            Some(b) => Some(upgrade_block_spec(b)),
            None => None,
        },
        None => None,
    }
}

/// What `current_receipts` returns: the decoded receipt list, upgraded
/// element-wise in order.
pub open spec fn current_receipts_spec(state: Seq<GStorageEntry>, block: u64) -> Option<
    Seq<GReceipt>,
> {
    match lookup(state, block, current_receipts_key_of()) {
        Some(bytes) => match receipts_value(bytes) {
            Some(rs) => Some(upgrade_receipts_spec(rs)),
            None => None,
        },
        None => None,
    }
}

/// What `current_transaction_statuses` returns: the decoded status list,
/// already in canonical shape.
pub open spec fn current_statuses_spec(state: Seq<GStorageEntry>, block: u64) -> Option<
    Seq<GTransactionStatus>,
> {
    match lookup(state, block, current_statuses_key_of()) {
        Some(bytes) => statuses_value(bytes),
        None => None,
    }
}

/// The override for the first storage schema generation.
pub struct SchemaV1Override {
    backend: StateBackend,
}

impl View for SchemaV1Override {
    type V = Seq<GStorageEntry>;

    closed spec fn view(&self) -> Seq<GStorageEntry> {
        self.backend@
    }
}

impl SchemaV1Override {
    /// Wraps the shared, read-only state backend capability.
    pub fn new(backend: StateBackend) -> (r: SchemaV1Override)
        ensures
            r@ == backend@,
    {
        SchemaV1Override { backend: backend }
    }

    /// Reads the raw bytes of one storage cell at one block.
    fn query_storage(&self, block: u64, key: &Vec<u8>) -> (r: Option<Vec<u8>>)
        ensures
            (match r {
                Some(v) => lookup(self@, block, key@) == Some(v@),
                None => lookup(self@, block, key@) is None,
            }),
    {
        self.backend.read(block, key)
    }

    /// For a given account address, returns the stored code blob, absent if
    /// none is stored at that block or the cell does not decode.
    pub fn account_code_at(&self, block: u64, address: &Address) -> (r: Option<Vec<u8>>)
        ensures
            (match r {
                Some(c) => account_code_spec(self@, block, address@) == Some(c@),
                None => account_code_spec(self@, block, address@) is None,
            }),
    {
        let key = account_code_key(address);
        match self.query_storage(block, &key) {
            Some(bytes) => decode_account_code(&bytes),
            None => None,
        }
    }

    /// For a given account address and slot index, returns the stored
    /// 32-byte word. A slot never written is absent; a slot written as the
    /// zero word is present with the zero word.
    pub fn storage_at(&self, block: u64, address: &Address, index: &U256) -> (r: Option<H256>)
        ensures
            (match r {
                Some(w) => storage_at_spec(self@, block, address@, index@) == Some(w@) && w.wf(),
                None => storage_at_spec(self@, block, address@, index@) is None,
            }),
    {
        let key = account_storage_key(address, index);
        match self.query_storage(block, &key) {
            Some(bytes) => decode_storage_word(&bytes),
            None => None,
        }
    }

    /// Returns the block stored at the given reference, upgraded into the
    /// canonical shape.
    pub fn current_block(&self, block: u64) -> (r: Option<Block>)
        ensures
            (match r {
                Some(b) => current_block_spec(self@, block) == Some(b@) && b.wf(),
                None => current_block_spec(self@, block) is None,
            }),
    {
        let key = current_block_key();
        let bytes = match self.query_storage(block, &key) {
            Some(b) => b,
            None => {
                return None;
            },
        };
        match decode_legacy_block(&bytes) {
            Some(legacy) => Some(upgrade_block(legacy)),
            None => None,
        }
    }

    /// Returns the receipts of the block at the given reference, upgraded
    /// into the canonical shape, in transaction order.
    pub fn current_receipts(&self, block: u64) -> (r: Option<Vec<Receipt>>)
        ensures
            (match r {
                Some(v) => current_receipts_spec(self@, block) == Some(receipts_view(v@)) && (
                forall|i: int| 0 <= i < v@.len() ==> (#[trigger] v@[i]).wf()),
                None => current_receipts_spec(self@, block) is None,
            }),
    {
        let key = current_receipts_key();
        let bytes = match self.query_storage(block, &key) {
            Some(b) => b,
            None => {
                return None;
            },
        };
        match decode_receipt_list(&bytes) {
            Some(legacy) => Some(upgrade_receipts(legacy)),
            None => None,
        }
    }

    /// Returns the per-transaction status records of the block at the given
    /// reference, in transaction order.
    pub fn current_transaction_statuses(&self, block: u64) -> (r: Option<Vec<TransactionStatus>>)
        ensures
            (match r {
                Some(v) => current_statuses_spec(self@, block) == Some(statuses_view(v@)) && (
                forall|i: int| 0 <= i < v@.len() ==> (#[trigger] v@[i]).wf()),
                None => current_statuses_spec(self@, block) is None,
            }),
    {
        let key = current_statuses_key();
        let bytes = match self.query_storage(block, &key) {
            Some(b) => b,
            None => {
                return None;
            },
        };
        decode_transaction_status_list(&bytes)
    }

    /// This generation predates fee-market support: the base fee is absent
    /// for every block, never zero.
    pub fn base_fee(&self, _block: u64) -> (r: Option<U256>)
        ensures
            r is None,
    {
        None
    }

    /// This generation predates fee-market support: the elasticity fraction
    /// is absent for every block, never zero.
    pub fn elasticity(&self, _block: u64) -> (r: Option<Permill>)
        ensures
            r is None,
    {
        None
    }

    /// The generation-level capability flag: false for every block, since the
    /// whole generation predates the fee market.
    pub fn is_eip1559(&self, _block: u64) -> (r: bool)
        ensures
            r == false,
    {
        false
    }
}

} // verus!
