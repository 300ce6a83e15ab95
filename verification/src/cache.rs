//! One contract over the two cache backends.
//!
//! The in-process backend answers everything locally. The tiered
//! backend may need its remote store: a read that misses the local
//! layer hands back the remote key to fetch, and a write hands back
//! the remote write that is owed. The caller performs that I/O and, for
//! reads, feeds the fetched record back in to be promoted.

use vstd::prelude::*;
use crate::keys::{
    CachedValue, SearchCacheKey, cv_equiv, cv_same, key_equiv, redis_key_spec,
};
use crate::memcache::{MemCache, mem_entries};
use crate::tiered::{TieredCache, l1_lookup};

verus! {

/// The configured backend: in-process adaptive cache, or tiered
/// in-process plus remote store.
pub enum CacheBackend {
    Memory(MemCache),
    Redis(TieredCache),
}

pub open spec fn backend_wf(c: CacheBackend) -> bool {
    match c {
        CacheBackend::Memory(_) => true,
        CacheBackend::Redis(tc) => tc.wf(),
    }
}

/// What a local read pass produced: an answer, or the remote key that
/// must be fetched before the read can be answered.
pub enum CacheGetStep {
    Done(Option<CachedValue>),
    NeedRemote(String),
}

/// The remote write a cache update owes: which remote key to set, and
/// with which expiry.
pub struct RemoteWrite {
    pub redis_key: String,
    pub ttl_seconds: Option<u64>,
}

/// First phase of a read: everything that can be answered without
/// touching the remote store. The in-process backend always answers;
/// the tiered backend answers on a local hit and otherwise names the
/// remote key to fetch.
pub fn cache_get_local(cache: &mut CacheBackend, key: &SearchCacheKey, redis_prefix: &str) -> (r:
    CacheGetStep)
    ensures
        *old(cache) is Memory ==> *final(cache) is Memory && mem_entries(
            final(cache)->Memory_0,
        ) == mem_entries(old(cache)->Memory_0),
        *old(cache) is Redis ==> *final(cache) == *old(cache),
        (match *old(cache) {
            CacheBackend::Memory(m) => match r {
                CacheGetStep::Done(opt) => match opt {
                    Option::None => true,
                    Option::Some(v) => exists|k2: SearchCacheKey|
                        {
                            &&& #[trigger] mem_entries(m).dom().contains(k2)
                            &&& key_equiv(k2, *key)
                            &&& cv_equiv(v, mem_entries(m)[k2])
                        },
                },
                CacheGetStep::NeedRemote(_) => false,
            },
            CacheBackend::Redis(tc) => match r {
                CacheGetStep::Done(opt) => match opt {
                    Option::None => false,
                    Option::Some(v) => {
                        &&& l1_lookup(tc@, *key) matches Option::Some(w)
                        &&& cv_equiv(v, w)
                    },
                },
                CacheGetStep::NeedRemote(s) => {
                    &&& l1_lookup(tc@, *key) is None
                    &&& s@ == redis_key_spec(redis_prefix@, *key)
                },
            },
        }),
{
    match cache {
        CacheBackend::Memory(m) => CacheGetStep::Done(m.get(key)),
        CacheBackend::Redis(tc) => match tc.get(key) {
            Option::Some(v) => CacheGetStep::Done(Option::Some(v)),
            Option::None => CacheGetStep::NeedRemote(key.to_redis_key(redis_prefix)),
        },
    }
}

/// Second phase of a tiered read, after the remote fetch: a fetched
/// record is promoted into the local layer and handed back unchanged; a
/// remote miss stays a miss.
pub fn cache_get_finish(
    cache: &mut CacheBackend,
    key: &SearchCacheKey,
    fetched: Option<CachedValue>,
) -> (r: Option<CachedValue>)
    requires
        *old(cache) is Redis,
        backend_wf(*old(cache)),
    ensures
        backend_wf(*final(cache)),
        *final(cache) is Redis,
        r == fetched,
        (match fetched {
            Option::None => *final(cache) == *old(cache),
            Option::Some(v) => {
                &&& l1_lookup(final(cache)->Redis_0@, *key) matches Option::Some(w)
                &&& cv_equiv(w, v)
            },
        }),
{
    match cache {
        CacheBackend::Redis(tc) => match fetched {
            Option::Some(v) => {
                let kc = key.clone();
                let vc = v.clone();
                tc.set(kc, vc);
                Option::Some(v)
            },
            Option::None => Option::None,
        },
        CacheBackend::Memory(_) => fetched,
    }
}

/// Installs a completed search. The in-process backend stores it with
/// its byte-size estimate and owes nothing further; the tiered backend
/// refreshes its local layer and owes the remote store a write under
/// the derived remote key.
pub fn cache_set(
    cache: &mut CacheBackend,
    key: &SearchCacheKey,
    value: CachedValue,
    redis_prefix: &str,
    ttl: Option<u64>,
) -> (r: Option<RemoteWrite>)
    requires
        backend_wf(*old(cache)),
    ensures
        backend_wf(*final(cache)),
        *old(cache) is Memory ==> *final(cache) is Memory && r is None,
        *old(cache) is Redis ==> *final(cache) is Redis && (match r {
            Option::Some(w) => {
                &&& w.redis_key@ == redis_key_spec(redis_prefix@, *key)
                &&& w.ttl_seconds == ttl
                &&& l1_lookup(final(cache)->Redis_0@, *key) == Option::Some(value)
            },
            Option::None => false,
        }),
{
    match cache {
        CacheBackend::Memory(m) => {
            let size = value.size();
            m.insert(key.clone(), value, size);
            Option::None
        },
        CacheBackend::Redis(tc) => {
            tc.set(key.clone(), value);
            Option::Some(
                RemoteWrite { redis_key: key.to_redis_key(redis_prefix), ttl_seconds: ttl },
            )
        },
    }
}

/// Installs a completed search, writing to the remote store only when
/// it would change what the store holds. `current` is the record the
/// read cascade found for this key, if any. The in-process backend
/// installs unconditionally — it has no remote side effect to spare.
/// The tiered backend always refreshes its local layer and owes the
/// remote write exactly when no record was visible or the visible one
/// differs under the change-detection equality.
pub fn cache_set_if_changed(
    cache: &mut CacheBackend,
    key: &SearchCacheKey,
    value: CachedValue,
    redis_prefix: &str,
    ttl: Option<u64>,
    current: &Option<CachedValue>,
) -> (r: Option<RemoteWrite>)
    requires
        backend_wf(*old(cache)),
    ensures
        backend_wf(*final(cache)),
        *old(cache) is Memory ==> *final(cache) is Memory && r is None,
        *old(cache) is Redis ==> *final(cache) is Redis && {
            &&& l1_lookup(final(cache)->Redis_0@, *key) == Option::Some(value)
            &&& (r is Some) == (match *current {
                Option::None => true,
                Option::Some(c) => !cv_same(c, value),
            })
            &&& (r matches Option::Some(w) ==> w.redis_key@ == redis_key_spec(
                redis_prefix@,
                *key,
            ) && w.ttl_seconds == ttl)
        },
{
    match cache {
        CacheBackend::Memory(m) => {
            let size = value.size();
            m.insert(key.clone(), value, size);
            Option::None
        },
        CacheBackend::Redis(tc) => {
            let write_l2 = tc.set_if_changed(key.clone(), value, current);
            if write_l2 {
                Option::Some(
                    RemoteWrite { redis_key: key.to_redis_key(redis_prefix), ttl_seconds: ttl },
                )
            } else {
                Option::None
            }
        },
    }
}

/// Best-effort housekeeping: asks the in-process backend to quiesce —
/// which may evict records, never invent one — and leaves the tiered
/// backend untouched.
pub fn cache_try_quiesce(cache: &mut CacheBackend)
    ensures
        *old(cache) is Memory ==> *final(cache) is Memory && mem_entries(
            final(cache)->Memory_0,
        ).submap_of(mem_entries(old(cache)->Memory_0)),
        *old(cache) is Redis ==> *final(cache) == *old(cache),
{
    match cache {
        CacheBackend::Memory(m) => m.try_quiesce(),
        CacheBackend::Redis(_) => (),
    }
}

} // verus!
