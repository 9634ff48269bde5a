//! The canonical, schema-independent data model, together with the
//! schema-native (legacy) shapes that historical storage generations recorded.
//!
//! Every exec type carries a mathematical view (a ghost mirror built from
//! `Seq` and plain values) so that contracts can speak of values exactly.

use vstd::prelude::*;

verus! {

// ---------------------------------------------------------------------------
// Ghost mirrors
// ---------------------------------------------------------------------------

/// Ghost shape of an event log entry.
#[verifier::ext_equal]
pub ghost struct GLog {
    pub address: Seq<u8>,
    pub topics: Seq<Seq<u8>>,
    pub data: Seq<u8>,
}

/// Ghost shape of a legacy (schema-native) receipt.
#[verifier::ext_equal]
pub ghost struct GLegacyReceipt {
    pub state_root: Seq<u8>,
    pub used_gas: Seq<u8>,
    pub logs_bloom: Seq<u8>,
    pub logs: Seq<GLog>,
}

/// Ghost shape of the canonical receipt payload.
#[verifier::ext_equal]
pub ghost struct GReceiptData {
    pub status_code: u8,
    pub used_gas: Seq<u8>,
    pub logs_bloom: Seq<u8>,
    pub logs: Seq<GLog>,
}

/// Ghost shape of a canonical receipt: the richer current variant set.
#[verifier::ext_equal]
pub ghost enum GReceipt {
    Legacy(GReceiptData),
    EIP2930(GReceiptData),
    EIP1559(GReceiptData),
}

/// Ghost shape of per-transaction indexing metadata.
#[verifier::ext_equal]
pub ghost struct GTransactionStatus {
    pub transaction_hash: Seq<u8>,
    pub transaction_index: u32,
    pub from: Seq<u8>,
    pub to: Option<Seq<u8>>,
    pub contract_address: Option<Seq<u8>>,
    pub logs: Seq<GLog>,
    pub logs_bloom: Seq<u8>,
}

/// Ghost shape of a transaction's target.
#[verifier::ext_equal]
pub ghost enum GTransactionAction {
    Call(Seq<u8>),
    Create,
}

/// Ghost shape of a legacy transaction signature.
#[verifier::ext_equal]
pub ghost struct GTransactionSignature {
    pub v: u64,
    pub r: Seq<u8>,
    pub s: Seq<u8>,
}

/// Ghost shape of a legacy transaction.
#[verifier::ext_equal]
pub ghost struct GLegacyTransaction {
    pub nonce: Seq<u8>,
    pub gas_price: Seq<u8>,
    pub gas_limit: Seq<u8>,
    pub action: GTransactionAction,
    pub value: Seq<u8>,
    pub input: Seq<u8>,
    pub signature: GTransactionSignature,
}

/// Ghost shape of a block header.
#[verifier::ext_equal]
pub ghost struct GHeader {
    pub parent_hash: Seq<u8>,
    pub ommers_hash: Seq<u8>,
    pub beneficiary: Seq<u8>,
    pub state_root: Seq<u8>,
    pub transactions_root: Seq<u8>,
    pub receipts_root: Seq<u8>,
    pub logs_bloom: Seq<u8>,
    pub difficulty: Seq<u8>,
    pub number: Seq<u8>,
    pub gas_limit: Seq<u8>,
    pub gas_used: Seq<u8>,
    pub timestamp: u64,
    pub extra_data: Seq<u8>,
    pub mix_hash: Seq<u8>,
    pub nonce: Seq<u8>,
}

/// Ghost shape of a schema-native block.
#[verifier::ext_equal]
pub ghost struct GLegacyBlock {
    pub header: GHeader,
    pub transactions: Seq<GLegacyTransaction>,
    pub ommers: Seq<GHeader>,
}

/// Ghost shape of a canonical transaction.
#[verifier::ext_equal]
pub ghost enum GTransaction {
    Legacy(GLegacyTransaction),
}

/// Ghost shape of a canonical block.
#[verifier::ext_equal]
pub ghost struct GBlock {
    pub header: GHeader,
    pub transactions: Seq<GTransaction>,
    pub ommers: Seq<GHeader>,
}

// ---------------------------------------------------------------------------
// Well-formedness of the ghost shapes
// ---------------------------------------------------------------------------

pub open spec fn address_wf(a: Seq<u8>) -> bool {
    a.len() == 20
}

pub open spec fn word_wf(w: Seq<u8>) -> bool {
    w.len() == 32
}

pub open spec fn bloom_seq_wf(b: Seq<u8>) -> bool {
    b.len() == 256
}

pub open spec fn glog_wf(l: GLog) -> bool {
    &&& address_wf(l.address)
    &&& forall|i: int| 0 <= i < l.topics.len() ==> word_wf(#[trigger] l.topics[i])
}

pub open spec fn glogs_wf(logs: Seq<GLog>) -> bool {
    forall|i: int| 0 <= i < logs.len() ==> glog_wf(#[trigger] logs[i])
}

pub open spec fn glegacy_receipt_wf(r: GLegacyReceipt) -> bool {
    &&& word_wf(r.state_root)
    &&& word_wf(r.used_gas)
    &&& bloom_seq_wf(r.logs_bloom)
    &&& glogs_wf(r.logs)
}

pub open spec fn greceipt_data_wf(d: GReceiptData) -> bool {
    &&& word_wf(d.used_gas)
    &&& bloom_seq_wf(d.logs_bloom)
    &&& glogs_wf(d.logs)
}

pub open spec fn greceipt_wf(r: GReceipt) -> bool {
    match r {
        GReceipt::Legacy(d) => greceipt_data_wf(d),
        GReceipt::EIP2930(d) => greceipt_data_wf(d),
        GReceipt::EIP1559(d) => greceipt_data_wf(d),
    }
}

pub open spec fn gstatus_wf(s: GTransactionStatus) -> bool {
    &&& word_wf(s.transaction_hash)
    &&& address_wf(s.from)
    &&& (s.to matches Some(a) ==> address_wf(a))
    &&& (s.contract_address matches Some(a) ==> address_wf(a))
    &&& glogs_wf(s.logs)
    &&& bloom_seq_wf(s.logs_bloom)
}

pub open spec fn gaction_wf(a: GTransactionAction) -> bool {
    match a {
        GTransactionAction::Call(t) => address_wf(t),
        GTransactionAction::Create => true,
    }
}

pub open spec fn gsignature_wf(s: GTransactionSignature) -> bool {
    &&& word_wf(s.r)
    &&& word_wf(s.s)
}

pub open spec fn glegacy_transaction_wf(t: GLegacyTransaction) -> bool {
    &&& word_wf(t.nonce)
    &&& word_wf(t.gas_price)
    &&& word_wf(t.gas_limit)
    &&& gaction_wf(t.action)
    &&& word_wf(t.value)
    &&& gsignature_wf(t.signature)
}

pub open spec fn gheader_wf(h: GHeader) -> bool {
    &&& word_wf(h.parent_hash)
    &&& word_wf(h.ommers_hash)
    &&& address_wf(h.beneficiary)
    &&& word_wf(h.state_root)
    &&& word_wf(h.transactions_root)
    &&& word_wf(h.receipts_root)
    &&& bloom_seq_wf(h.logs_bloom)
    &&& word_wf(h.difficulty)
    &&& word_wf(h.number)
    &&& word_wf(h.gas_limit)
    &&& word_wf(h.gas_used)
    &&& word_wf(h.mix_hash)
    &&& h.nonce.len() == 8
}

pub open spec fn glegacy_block_wf(b: GLegacyBlock) -> bool {
    &&& gheader_wf(b.header)
    &&& forall|i: int|
        0 <= i < b.transactions.len() ==> glegacy_transaction_wf(#[trigger] b.transactions[i])
    &&& forall|i: int| 0 <= i < b.ommers.len() ==> gheader_wf(#[trigger] b.ommers[i])
}

pub open spec fn gtransaction_wf(t: GTransaction) -> bool {
    match t {
        GTransaction::Legacy(l) => glegacy_transaction_wf(l),
    }
}

pub open spec fn gblock_wf(b: GBlock) -> bool {
    &&& gheader_wf(b.header)
    &&& forall|i: int| 0 <= i < b.transactions.len() ==> gtransaction_wf(#[trigger] b.transactions[i])
    &&& forall|i: int| 0 <= i < b.ommers.len() ==> gheader_wf(#[trigger] b.ommers[i])
}

// ---------------------------------------------------------------------------
// Exec types
// ---------------------------------------------------------------------------

/// A 20-byte account address.
#[derive(Clone, Debug, PartialEq, Eq)]
pub struct Address {
    pub bytes: Vec<u8>,
}

impl View for Address {
    type V = Seq<u8>;

    open spec fn view(&self) -> Seq<u8> {
        self.bytes@
    }
}

impl Address {
    pub open spec fn wf(&self) -> bool {
        address_wf(self@)
    }
}

/// A 32-byte hash value, stored in display (big-endian) order.
#[derive(Clone, Debug, PartialEq, Eq)]
pub struct H256 {
    pub bytes: Vec<u8>,
}

impl View for H256 {
    type V = Seq<u8>;

    open spec fn view(&self) -> Seq<u8> {
        self.bytes@
    }
}

impl H256 {
    pub open spec fn wf(&self) -> bool {
        word_wf(self@)
    }
}

/// A 256-bit unsigned quantity, held as its 32 big-endian value bytes.
#[derive(Clone, Debug, PartialEq, Eq)]
pub struct U256 {
    pub bytes: Vec<u8>,
}

impl View for U256 {
    type V = Seq<u8>;

    open spec fn view(&self) -> Seq<u8> {
        self.bytes@
    }
}

impl U256 {
    pub open spec fn wf(&self) -> bool {
        word_wf(self@)
    }
}

/// A 256-byte logs bloom filter.
#[derive(Clone, Debug, PartialEq, Eq)]
pub struct Bloom {
    pub bytes: Vec<u8>,
}

impl View for Bloom {
    type V = Seq<u8>;

    open spec fn view(&self) -> Seq<u8> {
        self.bytes@
    }
}

impl Bloom {
    pub open spec fn wf(&self) -> bool {
        bloom_seq_wf(self@)
    }
}

/// The element-wise view of a sequence of hashes.
pub open spec fn h256s_view(v: Seq<H256>) -> Seq<Seq<u8>> {
    v.map_values(|t: H256| t@)
}

/// An event log entry.
#[derive(Clone, Debug, PartialEq, Eq)]
pub struct Log {
    pub address: Address,
    pub topics: Vec<H256>,
    pub data: Vec<u8>,
}

impl View for Log {
    type V = GLog;

    open spec fn view(&self) -> GLog {
        GLog { address: self.address@, topics: h256s_view(self.topics@), data: self.data@ }
    }
}

impl Log {
    pub open spec fn wf(&self) -> bool {
        glog_wf(self@)
    }
}

/// The element-wise view of a sequence of logs.
pub open spec fn logs_view(v: Seq<Log>) -> Seq<GLog> {
    v.map_values(|l: Log| l@)
}

/// A schema-native receipt: the shape the legacy storage generation recorded.
#[derive(Clone, Debug, PartialEq, Eq)]
pub struct LegacyReceipt {
    pub state_root: H256,
    pub used_gas: U256,
    pub logs_bloom: Bloom,
    pub logs: Vec<Log>,
}

impl View for LegacyReceipt {
    type V = GLegacyReceipt;

    open spec fn view(&self) -> GLegacyReceipt {
        GLegacyReceipt {
            state_root: self.state_root@,
            used_gas: self.used_gas@,
            logs_bloom: self.logs_bloom@,
            logs: logs_view(self.logs@),
        }
    }
}

impl LegacyReceipt {
    pub open spec fn wf(&self) -> bool {
        glegacy_receipt_wf(self@)
    }
}

/// The element-wise view of a sequence of legacy receipts.
pub open spec fn legacy_receipts_view(v: Seq<LegacyReceipt>) -> Seq<GLegacyReceipt> {
    v.map_values(|r: LegacyReceipt| r@)
}

/// The canonical receipt payload: status code instead of a state root.
#[derive(Clone, Debug, PartialEq, Eq)]
pub struct ReceiptData {
    pub status_code: u8,
    pub used_gas: U256,
    pub logs_bloom: Bloom,
    pub logs: Vec<Log>,
}

impl View for ReceiptData {
    type V = GReceiptData;

    open spec fn view(&self) -> GReceiptData {
        GReceiptData {
            status_code: self.status_code,
            used_gas: self.used_gas@,
            logs_bloom: self.logs_bloom@,
            logs: logs_view(self.logs@),
        }
    }
}

impl ReceiptData {
    pub open spec fn wf(&self) -> bool {
        greceipt_data_wf(self@)
    }
}

/// A canonical receipt, in the current (richer) variant shape.
#[derive(Clone, Debug, PartialEq, Eq)]
pub enum Receipt {
    Legacy(ReceiptData),
    EIP2930(ReceiptData),
    EIP1559(ReceiptData),
}

impl View for Receipt {
    type V = GReceipt;

    open spec fn view(&self) -> GReceipt {
        match self {
            Receipt::Legacy(d) => GReceipt::Legacy(d@),
            Receipt::EIP2930(d) => GReceipt::EIP2930(d@),
            Receipt::EIP1559(d) => GReceipt::EIP1559(d@),
        }
    }
}

impl Receipt {
    pub open spec fn wf(&self) -> bool {
        greceipt_wf(self@)
    }
}

/// The element-wise view of a sequence of canonical receipts.
pub open spec fn receipts_view(v: Seq<Receipt>) -> Seq<GReceipt> {
    v.map_values(|r: Receipt| r@)
}

/// Per-transaction indexing metadata.
#[derive(Clone, Debug, PartialEq, Eq)]
pub struct TransactionStatus {
    pub transaction_hash: H256,
    pub transaction_index: u32,
    pub from: Address,
    pub to: Option<Address>,
    pub contract_address: Option<Address>,
    pub logs: Vec<Log>,
    pub logs_bloom: Bloom,
}

impl View for TransactionStatus {
    type V = GTransactionStatus;

    open spec fn view(&self) -> GTransactionStatus {
        GTransactionStatus {
            transaction_hash: self.transaction_hash@,
            transaction_index: self.transaction_index,
            from: self.from@,
            to: match self.to {
                Some(a) => Some(a@),
                None => None,
            },
            contract_address: match self.contract_address {
                Some(a) => Some(a@),
                None => None,
            },
            logs: logs_view(self.logs@),
            logs_bloom: self.logs_bloom@,
        }
    }
}

impl TransactionStatus {
    pub open spec fn wf(&self) -> bool {
        gstatus_wf(self@)
    }
}

/// The element-wise view of a sequence of transaction statuses.
pub open spec fn statuses_view(v: Seq<TransactionStatus>) -> Seq<GTransactionStatus> {
    v.map_values(|s: TransactionStatus| s@)
}

/// A transaction's target: a call to an address, or contract creation.
#[derive(Clone, Debug, PartialEq, Eq)]
pub enum TransactionAction {
    Call(Address),
    Create,
}

impl View for TransactionAction {
    type V = GTransactionAction;

    open spec fn view(&self) -> GTransactionAction {
        match self {
            TransactionAction::Call(a) => GTransactionAction::Call(a@),
            TransactionAction::Create => GTransactionAction::Create,
        }
    }
}

impl TransactionAction {
    pub open spec fn wf(&self) -> bool {
        gaction_wf(self@)
    }
}

/// A legacy transaction signature.
#[derive(Clone, Debug, PartialEq, Eq)]
pub struct TransactionSignature {
    pub v: u64,
    pub r: H256,
    pub s: H256,
}

impl View for TransactionSignature {
    type V = GTransactionSignature;

    open spec fn view(&self) -> GTransactionSignature {
        GTransactionSignature { v: self.v, r: self.r@, s: self.s@ }
    }
}

impl TransactionSignature {
    pub open spec fn wf(&self) -> bool {
        gsignature_wf(self@)
    }
}

/// The element-wise view of a sequence of legacy transactions.
pub open spec fn legacy_txs_view(v: Seq<LegacyTransaction>) -> Seq<GLegacyTransaction> {
    v.map_values(|t: LegacyTransaction| t@)
}

/// A legacy transaction, as the schema-native block records it.
#[derive(Clone, Debug, PartialEq, Eq)]
pub struct LegacyTransaction {
    pub nonce: U256,
    pub gas_price: U256,
    pub gas_limit: U256,
    pub action: TransactionAction,
    pub value: U256,
    pub input: Vec<u8>,
    pub signature: TransactionSignature,
}

impl View for LegacyTransaction {
    type V = GLegacyTransaction;

    open spec fn view(&self) -> GLegacyTransaction {
        GLegacyTransaction {
            nonce: self.nonce@,
            gas_price: self.gas_price@,
            gas_limit: self.gas_limit@,
            action: self.action@,
            value: self.value@,
            input: self.input@,
            signature: self.signature@,
        }
    }
}

impl LegacyTransaction {
    pub open spec fn wf(&self) -> bool {
        glegacy_transaction_wf(self@)
    }
}

/// A block header.
#[derive(Clone, Debug, PartialEq, Eq)]
pub struct Header {
    pub parent_hash: H256,
    pub ommers_hash: H256,
    pub beneficiary: Address,
    pub state_root: H256,
    pub transactions_root: H256,
    pub receipts_root: H256,
    pub logs_bloom: Bloom,
    pub difficulty: U256,
    pub number: U256,
    pub gas_limit: U256,
    pub gas_used: U256,
    pub timestamp: u64,
    pub extra_data: Vec<u8>,
    pub mix_hash: H256,
    pub nonce: Vec<u8>,
}

impl View for Header {
    type V = GHeader;

    open spec fn view(&self) -> GHeader {
        GHeader {
            parent_hash: self.parent_hash@,
            ommers_hash: self.ommers_hash@,
            beneficiary: self.beneficiary@,
            state_root: self.state_root@,
            transactions_root: self.transactions_root@,
            receipts_root: self.receipts_root@,
            logs_bloom: self.logs_bloom@,
            difficulty: self.difficulty@,
            number: self.number@,
            gas_limit: self.gas_limit@,
            gas_used: self.gas_used@,
            timestamp: self.timestamp,
            extra_data: self.extra_data@,
            mix_hash: self.mix_hash@,
            nonce: self.nonce@,
        }
    }
}

impl Header {
    pub open spec fn wf(&self) -> bool {
        gheader_wf(self@)
    }
}

/// The element-wise view of a sequence of headers.
pub open spec fn headers_view(v: Seq<Header>) -> Seq<GHeader> {
    v.map_values(|h: Header| h@)
}

/// A schema-native block: header plus legacy transactions and ommers.
#[derive(Clone, Debug, PartialEq, Eq)]
pub struct LegacyBlock {
    pub header: Header,
    pub transactions: Vec<LegacyTransaction>,
    pub ommers: Vec<Header>,
}

impl View for LegacyBlock {
    type V = GLegacyBlock;

    open spec fn view(&self) -> GLegacyBlock {
        GLegacyBlock {
            header: self.header@,
            transactions: legacy_txs_view(self.transactions@),
            ommers: headers_view(self.ommers@),
        }
    }
}

impl LegacyBlock {
    pub open spec fn wf(&self) -> bool {
        glegacy_block_wf(self@)
    }
}

/// A canonical transaction, in the current variant shape.
#[derive(Clone, Debug, PartialEq, Eq)]
pub enum Transaction {
    Legacy(LegacyTransaction),
}

impl View for Transaction {
    type V = GTransaction;

    open spec fn view(&self) -> GTransaction {
        match self {
            Transaction::Legacy(t) => GTransaction::Legacy(t@),
        }
    }
}

impl Transaction {
    pub open spec fn wf(&self) -> bool {
        gtransaction_wf(self@)
    }
}

/// The element-wise view of a sequence of canonical transactions.
pub open spec fn transactions_view(v: Seq<Transaction>) -> Seq<GTransaction> {
    v.map_values(|t: Transaction| t@)
}

/// A canonical block: header plus canonical transactions.
#[derive(Clone, Debug, PartialEq, Eq)]
pub struct Block {
    pub header: Header,
    pub transactions: Vec<Transaction>,
    pub ommers: Vec<Header>,
}

impl View for Block {
    type V = GBlock;

    open spec fn view(&self) -> GBlock {
        GBlock {
            header: self.header@,
            transactions: transactions_view(self.transactions@),
            ommers: headers_view(self.ommers@),
        }
    }
}

impl Block {
    pub open spec fn wf(&self) -> bool {
        gblock_wf(self@)
    }
}

/// A fraction in parts per million, the shape elasticity is reported in.
#[derive(Clone, Copy, Debug, PartialEq, Eq)]
pub struct Permill {
    pub parts: u32,
}

} // verus!
