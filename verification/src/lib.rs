//! Versioned on-chain storage adapter: reads raw key-value state of a chain
//! at a historical block, interprets the bytes under the storage schema that
//! was active at that block, and normalizes the result into one canonical,
//! schema-independent data model.

pub mod backend;
pub mod evm;
pub mod keys;
pub mod laws;
pub mod scale;
pub mod schema_v1;
pub mod types;

use vstd::prelude::*;

verus! {

/// Copies a byte vector. Decoded values own their bytes, so reads out of a
/// shared backend hand back fresh copies.
pub fn copy_bytes(v: &Vec<u8>) -> (r: Vec<u8>)
    ensures
        r@ == v@,
{
    let mut out: Vec<u8> = Vec::new();
    let mut i: usize = 0;
    while i < v.len()
        invariant
            i <= v@.len(),
            out@ == v@.subrange(0, i as int),
        decreases v@.len() - i,
    {
        out.push(v[i]);
        i = i + 1;
    }
    assert(out@ == v@);
    out
}

/// Compares two byte vectors for equality of contents.
pub fn bytes_eq(a: &Vec<u8>, b: &Vec<u8>) -> (r: bool)
    ensures
        r == (a@ == b@),
{
    if a.len() != b.len() {
        return false;
    }
    let mut i: usize = 0;
    while i < a.len()
        invariant
            a@.len() == b@.len(),
            i <= a@.len(),
            forall|j: int| 0 <= j < i ==> a@[j] == b@[j],
        decreases a@.len() - i,
    {
        if a[i] != b[i] {
            return false;
        }
        i = i + 1;
    }
    proof {
        assert(a@ =~= b@);
    }
    true
}

} // verus!
