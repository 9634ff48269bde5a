//! Storage key derivation: the pure function from a (namespace, item) pair
//! and optional map-key components to the exact byte sequence a storage cell
//! lives under.
//!
//! The two digests come from an outside hashing crate; each is named by an
//! uninterpreted function, so every contract downstream is exact in terms of
//! those names. Key derivation itself carries no failure case: garbage input
//! produces a key that matches no stored value.

use vstd::prelude::*;

use crate::copy_bytes;
use crate::types::{Address, U256};

verus! {

/// The 16-byte digest the storage layer derives namespace and item names with.
pub uninterp spec fn twox128_of(data: Seq<u8>) -> Seq<u8>;

/// The 16-byte keyed digest map-key components are prefixed with.
pub uninterp spec fn blake2_128_of(data: Seq<u8>) -> Seq<u8>;

/// Relies on sp_core_hashing::twox_128: a 16-byte digest that is a pure
/// function of the input bytes alone, with no seed, environment or machine
/// dependence.
#[verifier::external_body]
fn twox_128_digest(data: &Vec<u8>) -> (r: Vec<u8>)
    ensures
        r@ == twox128_of(data@),
        r@.len() == 16,
{
    sp_core_hashing::twox_128(data.as_slice()).to_vec()
}

/// Relies on sp_core_hashing::blake2_128: a 16-byte digest that is a pure
/// function of the input bytes alone, with no seed, environment or machine
/// dependence.
#[verifier::external_body]
fn blake2_128_digest(data: &Vec<u8>) -> (r: Vec<u8>)
    ensures
        r@ == blake2_128_of(data@),
        r@.len() == 16,
{
    sp_core_hashing::blake2_128(data.as_slice()).to_vec()
}

// ---------------------------------------------------------------------------
// Namespace and item names, as byte constants
// ---------------------------------------------------------------------------

pub open spec fn evm_module() -> Seq<u8> {
    seq![69u8, 86u8, 77u8]
}

pub open spec fn account_codes_item() -> Seq<u8> {
    seq![65u8, 99u8, 99u8, 111u8, 117u8, 110u8, 116u8, 67u8, 111u8, 100u8, 101u8, 115u8]
}

pub open spec fn account_storages_item() -> Seq<u8> {
    seq![65u8, 99u8, 99u8, 111u8, 117u8, 110u8, 116u8, 83u8, 116u8, 111u8, 114u8, 97u8, 103u8, 101u8, 115u8]
}

pub open spec fn ethereum_module() -> Seq<u8> {
    seq![69u8, 116u8, 104u8, 101u8, 114u8, 101u8, 117u8, 109u8]
}

pub open spec fn current_block_item() -> Seq<u8> {
    seq![67u8, 117u8, 114u8, 114u8, 101u8, 110u8, 116u8, 66u8, 108u8, 111u8, 99u8, 107u8]
}

pub open spec fn current_receipts_item() -> Seq<u8> {
    seq![
        67u8,
        117u8,
        114u8,
        114u8,
        101u8,
        110u8,
        116u8,
        82u8,
        101u8,
        99u8,
        101u8,
        105u8,
        112u8,
        116u8,
        115u8,
    ]
}

pub open spec fn current_statuses_item() -> Seq<u8> {
    seq![
        67u8,
        117u8,
        114u8,
        114u8,
        101u8,
        110u8,
        116u8,
        84u8,
        114u8,
        97u8,
        110u8,
        115u8,
        97u8,
        99u8,
        116u8,
        105u8,
        111u8,
        110u8,
        83u8,
        116u8,
        97u8,
        116u8,
        117u8,
        115u8,
        101u8,
        115u8,
    ]
}

pub fn evm_module_bytes() -> (r: Vec<u8>)
    ensures
        r@ == evm_module(),
{
    let r: Vec<u8> = vec![69u8, 86u8, 77u8];
    assert(r@ =~= evm_module());
    r
}

pub fn account_codes_item_bytes() -> (r: Vec<u8>)
    ensures
        r@ == account_codes_item(),
{
    let r: Vec<u8> = vec![65u8, 99u8, 99u8, 111u8, 117u8, 110u8, 116u8, 67u8, 111u8, 100u8, 101u8, 115u8];
    assert(r@ =~= account_codes_item());
    r
}

pub fn account_storages_item_bytes() -> (r: Vec<u8>)
    ensures
        r@ == account_storages_item(),
{
    let r: Vec<u8> = vec![
        65u8,
        99u8,
        99u8,
        111u8,
        117u8,
        110u8,
        116u8,
        83u8,
        116u8,
        111u8,
        114u8,
        97u8,
        103u8,
        101u8,
        115u8,
    ];
    assert(r@ =~= account_storages_item());
    r
}

pub fn ethereum_module_bytes() -> (r: Vec<u8>)
    ensures
        r@ == ethereum_module(),
{
    let r: Vec<u8> = vec![69u8, 116u8, 104u8, 101u8, 114u8, 101u8, 117u8, 109u8];
    assert(r@ =~= ethereum_module());
    r
}

pub fn current_block_item_bytes() -> (r: Vec<u8>)
    ensures
        r@ == current_block_item(),
{
    let r: Vec<u8> = vec![67u8, 117u8, 114u8, 114u8, 101u8, 110u8, 116u8, 66u8, 108u8, 111u8, 99u8, 107u8];
    assert(r@ =~= current_block_item());
    r
}

pub fn current_receipts_item_bytes() -> (r: Vec<u8>)
    ensures
        r@ == current_receipts_item(),
{
    let r: Vec<u8> = vec![
        67u8,
        117u8,
        114u8,
        114u8,
        101u8,
        110u8,
        116u8,
        82u8,
        101u8,
        99u8,
        101u8,
        105u8,
        112u8,
        116u8,
        115u8,
    ];
    assert(r@ =~= current_receipts_item());
    r
}

pub fn current_statuses_item_bytes() -> (r: Vec<u8>)
    ensures
        r@ == current_statuses_item(),
{
    let r: Vec<u8> = vec![
        67u8,
        117u8,
        114u8,
        114u8,
        101u8,
        110u8,
        116u8,
        84u8,
        114u8,
        97u8,
        110u8,
        115u8,
        97u8,
        99u8,
        116u8,
        105u8,
        111u8,
        110u8,
        83u8,
        116u8,
        97u8,
        116u8,
        117u8,
        115u8,
        101u8,
        115u8,
    ];
    assert(r@ =~= current_statuses_item());
    r
}

// ---------------------------------------------------------------------------
// Key builders
// ---------------------------------------------------------------------------

/// The 32-byte prefix identifying one storage item family: the digests of the
/// namespace and of the item name, concatenated.
pub open spec fn storage_prefix_of(module: Seq<u8>, item: Seq<u8>) -> Seq<u8> {
    twox128_of(module) + twox128_of(item)
}

/// Builds the 32-byte prefix identifying one storage item family.
pub fn storage_prefix_build(module: &Vec<u8>, item: &Vec<u8>) -> (r: Vec<u8>)
    ensures
        r@ == storage_prefix_of(module@, item@),
        r@.len() == 32,
{
    let mut r = twox_128_digest(module);
    let mut tail = twox_128_digest(item);
    r.append(&mut tail);
    r
}

/// A hash-then-reveal map-key component: the keyed digest of the component
/// followed by the raw component bytes, so the key stays re-derivable.
pub open spec fn blake2_128_extend_of(bytes: Seq<u8>) -> Seq<u8> {
    blake2_128_of(bytes) + bytes
}

/// Builds one hash-then-reveal map-key component.
pub fn blake2_128_extend(bytes: &Vec<u8>) -> (r: Vec<u8>)
    ensures
        r@ == blake2_128_extend_of(bytes@),
        r@.len() == 16 + bytes@.len(),
{
    let mut r = blake2_128_digest(bytes);
    let mut tail = copy_bytes(bytes);
    r.append(&mut tail);
    r
}

/// The key of the storage cell holding one account's code blob.
pub open spec fn account_code_key_of(address: Seq<u8>) -> Seq<u8> {
    storage_prefix_of(evm_module(), account_codes_item()) + blake2_128_extend_of(address)
}

/// Builds the key of the cell holding one account's code blob.
pub fn account_code_key(address: &Address) -> (r: Vec<u8>)
    ensures
        r@ == account_code_key_of(address@),
{
    let mut key = storage_prefix_build(&evm_module_bytes(), &account_codes_item_bytes());
    let mut a = blake2_128_extend(&address.bytes);
    key.append(&mut a);
    key
}

/// The key of the storage cell holding one account storage slot: the family
/// prefix, then one component per map-key part, in declared order.
pub open spec fn account_storage_key_of(address: Seq<u8>, index_be: Seq<u8>) -> Seq<u8> {
    storage_prefix_of(evm_module(), account_storages_item()) + blake2_128_extend_of(address)
        + blake2_128_extend_of(index_be)
}

/// Builds the key of the cell holding one account storage slot.
pub fn account_storage_key(address: &Address, index: &U256) -> (r: Vec<u8>)
    ensures
        r@ == account_storage_key_of(address@, index@),
{
    let mut key = storage_prefix_build(&evm_module_bytes(), &account_storages_item_bytes());
    let mut a = blake2_128_extend(&address.bytes);
    let mut i = blake2_128_extend(&index.bytes);
    key.append(&mut a);
    key.append(&mut i);
    key
}

/// The key of the cell holding the current block.
pub open spec fn current_block_key_of() -> Seq<u8> {
    storage_prefix_of(ethereum_module(), current_block_item())
}

/// Builds the key of the cell holding the current block.
pub fn current_block_key() -> (r: Vec<u8>)
    ensures
        r@ == current_block_key_of(),
{
    storage_prefix_build(&ethereum_module_bytes(), &current_block_item_bytes())
}

/// The key of the cell holding the current receipt list.
pub open spec fn current_receipts_key_of() -> Seq<u8> {
    storage_prefix_of(ethereum_module(), current_receipts_item())
}

/// Builds the key of the cell holding the current receipt list.
pub fn current_receipts_key() -> (r: Vec<u8>)
    ensures
        r@ == current_receipts_key_of(),
{
    storage_prefix_build(&ethereum_module_bytes(), &current_receipts_item_bytes())
}

/// The key of the cell holding the current status list.
pub open spec fn current_statuses_key_of() -> Seq<u8> {
    storage_prefix_of(ethereum_module(), current_statuses_item())
}

/// Builds the key of the cell holding the current status list.
pub fn current_statuses_key() -> (r: Vec<u8>)
    ensures
        r@ == current_statuses_key_of(),
{
    storage_prefix_build(&ethereum_module_bytes(), &current_statuses_item_bytes())
}

} // verus!
