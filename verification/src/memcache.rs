//! The in-process memory backend: a size-bounded adaptive replacement
//! cache from the `concread` crate, held behind trusted wrappers.
//!
//! The cache is free to admit, keep or evict what it likes within its
//! byte budget, so the contracts here promise only what its source
//! shows for every outcome: a fresh cache is empty, a read returns a
//! copy of some record stored under an equal key, and a write adds at
//! most the written record. Nothing promises that a written record is
//! retained; the fallback guarantees of this crate are proved on the
//! tiered backend, whose in-process layer is verified.

use vstd::prelude::*;
use std::num::NonZeroUsize;
use concread::arcache::{ARCache, ARCacheBuilder};
use crate::keys::{CachedValue, SearchCacheKey, cv_equiv, key_equiv};

verus! {

/// A handle to the size-bounded adaptive cache.
#[verifier::external_body]
pub struct MemCache {
    inner: ARCache<SearchCacheKey, CachedValue>,
}

/// What the adaptive cache currently holds, as a map from stored key to
/// stored record.
pub uninterp spec fn mem_entries(c: MemCache) -> Map<SearchCacheKey, CachedValue>;

impl MemCache {
    /// Relies on concread's ARCacheBuilder: `set_size` fixes the byte
    /// budget and `build` then returns an empty cache.
    #[verifier::external_body]
    pub fn new(size_bytes: usize) -> (r: Option<MemCache>)
        ensures
            (match r {
                Option::Some(c) => mem_entries(c) == Map::<SearchCacheKey, CachedValue>::empty(),
                Option::None => true,
            }),
    {
        ARCacheBuilder::new().set_size(size_bytes, 0).build().map(|inner| MemCache { inner })
    }

    /// Relies on ARCacheReadTxn::get: a hit returns the record stored
    /// under a key equal to the probe, and the copy is made by this
    /// crate's own `Clone`. A read records access metadata but never
    /// changes what is stored.
    #[verifier::external_body]
    pub fn get(&mut self, key: &SearchCacheKey) -> (r: Option<CachedValue>)
        ensures
            mem_entries(*final(self)) == mem_entries(*old(self)),
            r matches Option::Some(v) ==> exists|k2: SearchCacheKey|
                {
                    &&& #[trigger] mem_entries(*old(self)).dom().contains(k2)
                    &&& key_equiv(k2, *key)
                    &&& cv_equiv(v, mem_entries(*old(self))[k2])
                },
    {
        let mut rd = self.inner.read();
        rd.get(key).cloned()
    }

    /// Relies on ARCacheWriteTxn::insert_sized and commit: the write
    /// becomes visible at commit, with `size` as the record's weight;
    /// the cache may evict entries to stay within its budget, so
    /// afterwards it holds at most what it held before plus this
    /// record.
    #[verifier::external_body]
    pub fn insert(&mut self, key: SearchCacheKey, value: CachedValue, size: usize)
        requires
            size >= 1,
        ensures
            mem_entries(*final(self)).submap_of(mem_entries(*old(self)).insert(key, value)),
    {
        if let Some(sz) = NonZeroUsize::new(size) {
            let mut wr = self.inner.write();
            wr.insert_sized(key, value, sz);
            wr.commit();
        }
    }

    /// Relies on ARCache::try_quiesce: best-effort housekeeping, which
    /// may evict records but never invents or alters one.
    #[verifier::external_body]
    pub fn try_quiesce(&mut self)
        ensures
            mem_entries(*final(self)).submap_of(mem_entries(*old(self))),
    {
        self.inner.try_quiesce();
    }
}

} // verus!
