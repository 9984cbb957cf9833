//! The cache store: every fetched document's raw bytes, kept under the
//! deterministic location derived from the document's identity.
//!
//! Each identity maps to exactly one location, and writing is whole-document
//! replacement: re-writing an identity replaces the prior bytes, reading an
//! identity yields the bytes last written under it. A missing entry is a
//! [`CrawlError::CacheRead`] failure, kept apart from decode failures so a
//! caller can tell "not cached" from "cached but corrupt". Carrying the
//! store's contents onto disk is the caller's business.

use vstd::prelude::*;
use crate::error::CrawlError;

verus! {

/// The cache location of one document, derived from its identity: one slot
/// for the category root, one per article identifier. Distinct identities
/// are distinct locations by construction.
#[derive(Clone, Copy, Debug, PartialEq, Eq, Structural)]
pub enum CachePath {
    /// The category root document.
    CategoryRoot,
    /// The article document with this identifier.
    Article(i64),
}

/// The mapping a sequence of write entries denotes: later entries replace
/// earlier ones written under the same path.
pub open spec fn store_view(entries: Seq<(CachePath, Vec<u8>)>) -> Map<CachePath, Seq<u8>>
    decreases entries.len(),
{
    if entries.len() == 0 {
        Map::empty()
    } else {
        store_view(entries.drop_last()).insert(entries.last().0, entries.last().1@)
    }
}

/// A write-through store of raw document bytes, viewed as a mapping from
/// cache path to the bytes last written under it.
pub struct CacheStore {
    entries: Vec<(CachePath, Vec<u8>)>,
}

impl View for CacheStore {
    type V = Map<CachePath, Seq<u8>>;

    closed spec fn view(&self) -> Map<CachePath, Seq<u8>> {
        store_view(self.entries@)
    }
}

/// A byte-for-byte copy of a buffer.
fn copy_bytes(b: &Vec<u8>) -> (r: Vec<u8>)
    ensures
        r@ == b@,
{
    let mut r: Vec<u8> = Vec::new();
    let n = b.len();
    for i in 0..n
        invariant
            n == b@.len(),
            r@ == b@.take(i as int),
    {
        r.push(b[i]);
        proof {
            assert(b@.take(i + 1) =~= b@.take(i as int).push(b@[i as int]));
        }
    }
    proof {
        assert(b@.take(n as int) =~= b@);
    }
    r
}

impl CacheStore {
    /// An empty store.
    pub fn new() -> (s: CacheStore)
        ensures
            s@ == Map::<CachePath, Seq<u8>>::empty(),
    {
        CacheStore { entries: Vec::new() }
    }

    /// Stores `bytes` under `path`, replacing whatever was stored under
    /// `path` before and leaving every other path's bytes unchanged.
    pub fn write(&mut self, path: CachePath, bytes: Vec<u8>)
        ensures
            final(self)@ == old(self)@.insert(path, bytes@),
    {
        let ghost before = self.entries@;
        self.entries.push((path, bytes));
        proof {
            assert(self.entries@.drop_last() =~= before);
        }
    }

    /// The bytes last written under `path`; the cache-read failure exactly
    /// when nothing was ever written under `path`.
    pub fn read(&self, path: CachePath) -> (res: Result<Vec<u8>, CrawlError>)
        ensures
            match res {
                Ok(b) => self@.contains_key(path) && b@ == self@[path],
                Err(e) => !self@.contains_key(path) && e == CrawlError::CacheRead,
            },
    {
        let mut i = self.entries.len();
        proof {
            assert(self.entries@.take(i as int) =~= self.entries@);
        }
        while i > 0
            invariant
                i <= self.entries@.len(),
                store_view(self.entries@).contains_key(path) == store_view(
                    self.entries@.take(i as int),
                ).contains_key(path),
                store_view(self.entries@).contains_key(path) ==> store_view(self.entries@)[path]
                    == store_view(self.entries@.take(i as int))[path],
            decreases i,
        {
            let j = i - 1;
            proof {
                assert(self.entries@.take(i as int).drop_last() =~= self.entries@.take(j as int));
                assert(self.entries@.take(i as int).last() == self.entries@[j as int]);
            }
            if self.entries[j].0 == path {
                return Ok(copy_bytes(&self.entries[j].1));
            }
            i = j;
        }
        proof {
            assert(self.entries@.take(0) =~= Seq::<(CachePath, Vec<u8>)>::empty());
        }
        Err(CrawlError::CacheRead)
    }
}

/// Round trip: writing bytes under a path and reading that path back yields
/// exactly the bytes written — over the store's mapping, an insert is
/// contained and read back unchanged, which is what [`CacheStore::write`]
/// guarantees to produce and [`CacheStore::read`] guarantees to consult.
pub proof fn lemma_cache_round_trip(m: Map<CachePath, Seq<u8>>, path: CachePath, bytes: Seq<u8>)
    ensures
        m.insert(path, bytes).contains_key(path),
        m.insert(path, bytes)[path] == bytes,
{
}

} // verus!
