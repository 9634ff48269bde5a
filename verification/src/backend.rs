//! An in-memory state backend: the `read(block, key) -> optional bytes`
//! capability the overrides consume, modeled as data so that every query is
//! verified against it. A later write to the same (block, key) pair shadows
//! an earlier one.

use vstd::prelude::*;

use crate::bytes_eq;
use crate::copy_bytes;

verus! {

/// Ghost shape of one stored cell.
#[verifier::ext_equal]
pub ghost struct GStorageEntry {
    pub block: u64,
    pub key: Seq<u8>,
    pub value: Seq<u8>,
}

/// One stored cell: a value under a key, at a block.
#[derive(Clone, Debug, PartialEq, Eq)]
pub struct StorageEntry {
    pub block: u64,
    pub key: Vec<u8>,
    pub value: Vec<u8>,
}

impl View for StorageEntry {
    type V = GStorageEntry;

    open spec fn view(&self) -> GStorageEntry {
        GStorageEntry { block: self.block, key: self.key@, value: self.value@ }
    }
}

/// The element-wise view of a sequence of stored cells.
pub open spec fn entries_view(v: Seq<StorageEntry>) -> Seq<GStorageEntry> {
    v.map_values(|e: StorageEntry| e@)
}

/// What a read returns: the value of the last entry written under the
/// (block, key) pair, absent if none was.
pub open spec fn lookup(entries: Seq<GStorageEntry>, block: u64, key: Seq<u8>) -> Option<Seq<u8>>
    decreases entries.len(),
{
    if entries.len() == 0 {
        None
    } else {
        let last = entries[entries.len() - 1];
        if last.block == block && last.key == key {
            Some(last.value)
        } else {
            lookup(entries.drop_last(), block, key)
        }
    }
}

/// An in-memory point-in-time state store, read through `read` and populated
/// through `write`.
#[derive(Clone, Debug, PartialEq, Eq)]
pub struct StateBackend {
    entries: Vec<StorageEntry>,
}

impl View for StateBackend {
    type V = Seq<GStorageEntry>;

    closed spec fn view(&self) -> Seq<GStorageEntry> {
        entries_view(self.entries@)
    }
}

impl StateBackend {
    /// An empty store: every read is absent.
    pub fn new() -> (r: StateBackend)
        ensures
            r@ == Seq::<GStorageEntry>::empty(),
    {
        let r = StateBackend { entries: Vec::new() };
        proof {
            assert(r@ =~= Seq::<GStorageEntry>::empty());
        }
        r
    }

    /// Stores `value` under `key` at `block`, shadowing any earlier write.
    pub fn write(&mut self, block: u64, key: Vec<u8>, value: Vec<u8>)
        ensures
            final(self)@ == old(self)@.push(GStorageEntry { block: block, key: key@, value: value@ }),
    {
        let ghost gk = key@;
        let ghost gv = value@;
        self.entries.push(StorageEntry { block: block, key: key, value: value });
        proof {
            assert(entries_view(self.entries@) =~= entries_view(old(self).entries@).push(
                GStorageEntry { block: block, key: gk, value: gv },
            ));
        }
    }

    /// Reads the bytes stored under `key` at `block`, absent if never written.
    pub fn read(&self, block: u64, key: &Vec<u8>) -> (r: Option<Vec<u8>>)
        ensures
            (match r {
                Some(v) => lookup(self@, block, key@) == Some(v@),
                None => lookup(self@, block, key@) is None,
            }),
    {
        let mut i: usize = self.entries.len();
        proof {
            assert(entries_view(self.entries@).take(i as int) =~= entries_view(self.entries@));
        }
        while i > 0
            invariant
                i <= self.entries@.len(),
                lookup(self@, block, key@) == lookup(
                    entries_view(self.entries@).take(i as int),
                    block,
                    key@,
                ),
            decreases i,
        {
            i = i - 1;
            let e = &self.entries[i];
            let key_matches = bytes_eq(&e.key, key);
            proof {
                assert(entries_view(self.entries@).take(i + 1).drop_last() =~= entries_view(
                    self.entries@,
                ).take(i as int));
                assert(entries_view(self.entries@).take(i + 1)[i as int] == self.entries@[
                    i as int]@);
            }
            if e.block == block && key_matches {
                return Some(copy_bytes(&e.value));
            }
        }
        None
    }
}

} // verus!
