//! The tiered cache's in-process layer and its write decisions.
//!
//! The tiered backend keeps a bounded in-process layer (L1) in front of
//! a remote store (L2). Everything that can be decided locally is
//! decided here, verified: the L1 lookup, the bounded insert with its
//! eviction rule, and the change-detection rule that says whether a
//! remote write is owed. The remote reads and writes themselves are
//! I/O; the caller performs them and feeds the outcomes back in.
//!
//! L1 holds at most `max_l1` records; when it is full, installing a new
//! record evicts exactly the oldest one. A lookup returns the most
//! recently installed record for the key.

use vstd::prelude::*;
use crate::keys::{
    CachedValue, SearchCacheKey, cv_equiv, cv_same, cv_same_check, key_eq, key_equiv,
    lemma_key_equiv_refl,
};

verus! {

/// The most recently installed value for `k` in `s`, if any.
pub open spec fn l1_lookup(
    s: Seq<(SearchCacheKey, CachedValue)>,
    k: SearchCacheKey,
) -> Option<CachedValue>
    decreases s.len(),
{
    if s.len() == 0 {
        Option::None
    } else if key_equiv(s.last().0, k) {
        Option::Some(s.last().1)
    } else {
        l1_lookup(s.subrange(0, s.len() - 1), k)
    }
}

/// The in-process layer of the tiered cache.
pub struct TieredCache {
    entries: Vec<(SearchCacheKey, CachedValue)>,
    max_l1: usize,
}

impl TieredCache {
    /// The records currently held, oldest first.
    pub closed spec fn view(&self) -> Seq<(SearchCacheKey, CachedValue)> {
        self.entries@
    }

    /// The configured L1 capacity.
    pub closed spec fn capacity(&self) -> usize {
        self.max_l1
    }

    /// L1 never exceeds its capacity.
    pub closed spec fn wf(&self) -> bool {
        self.max_l1 >= 1 && self.entries@.len() <= self.max_l1
    }

    pub fn new(max_l1: usize) -> (r: Self)
        requires
            max_l1 >= 1,
        ensures
            r.wf(),
            r@.len() == 0,
            r.capacity() == max_l1,
    {
        TieredCache { entries: Vec::new(), max_l1 }
    }

    /// Looks `key` up in L1 and copies the record out on a hit.
    pub fn get(&self, key: &SearchCacheKey) -> (r: Option<CachedValue>)
        ensures
            match r {
                Option::None => l1_lookup(self@, *key) is None,
                Option::Some(v) => {
                    &&& l1_lookup(self@, *key) matches Option::Some(w)
                    &&& cv_equiv(v, w)
                },
            },
    {
        let mut i: usize = self.entries.len();
        proof {
            assert(self.entries@.take(self.entries@.len() as int) =~= self.entries@);
        }
        while i > 0
            invariant
                i <= self.entries.len(),
                l1_lookup(self.entries@, *key) == l1_lookup(
                    self.entries@.take(i as int),
                    *key,
                ),
            decreases i,
        {
            i -= 1;
            proof {
                assert(self.entries@.take(i + 1).last() == self.entries@[i as int]);
                assert(self.entries@.take(i + 1).subrange(0, i as int) =~= self.entries@.take(
                    i as int,
                ));
            }
            if key_eq(&self.entries[i].0, key) {
                return Option::Some(self.entries[i].1.clone());
            }
        }
        proof {
            assert(self.entries@.take(0) =~= Seq::<(SearchCacheKey, CachedValue)>::empty());
        }
        Option::None
    }

    /// Installs a record, evicting exactly the oldest one when L1 is at
    /// capacity. Used both for fresh writes and for promoting a remote
    /// hit.
    pub fn set(&mut self, key: SearchCacheKey, value: CachedValue)
        requires
            old(self).wf(),
        ensures
            final(self).wf(),
            final(self).capacity() == old(self).capacity(),
            l1_lookup(final(self)@, key) == Option::Some(value),
            forall|probe: SearchCacheKey|
                key_equiv(key, probe) ==> #[trigger] l1_lookup(final(self)@, probe)
                    == Option::Some(value),
            old(self)@.len() < old(self).capacity() ==> final(self)@ == old(self)@.push(
                (key, value),
            ),
            old(self)@.len() == old(self).capacity() ==> final(self)@ == old(self)@.subrange(
                1,
                old(self)@.len() as int,
            ).push((key, value)),
            final(self)@.len() == if old(self)@.len() < old(self).capacity() {
                old(self)@.len() + 1int
            } else {
                old(self)@.len() as int
            },
    {
        if self.entries.len() >= self.max_l1 {
            self.entries.remove(0);
        }
        proof {
            lemma_key_equiv_refl(key);
        }
        self.entries.push((key, value));
        proof {
            assert(self.entries@.last() == (key, value));
            assert forall|probe: SearchCacheKey| key_equiv(key, probe) implies #[trigger] l1_lookup(
                self.entries@,
                probe,
            ) == Option::Some(value) by {
                assert(self.entries@.last() == (key, value));
            }
        }
    }

    /// One `put_if_changed` step, given the record currently visible
    /// for the key (from L1 or, on an L1 miss, from the remote store).
    /// L1 is always refreshed; the result says whether the remote store
    /// is owed a write: exactly when no record was visible or the
    /// visible one differs under the change-detection equality.
    pub fn set_if_changed(
        &mut self,
        key: SearchCacheKey,
        value: CachedValue,
        current: &Option<CachedValue>,
    ) -> (write_l2: bool)
        requires
            old(self).wf(),
        ensures
            final(self).wf(),
            final(self).capacity() == old(self).capacity(),
            l1_lookup(final(self)@, key) == Option::Some(value),
            forall|probe: SearchCacheKey|
                key_equiv(key, probe) ==> #[trigger] l1_lookup(final(self)@, probe)
                    == Option::Some(value),
            write_l2 == match *current {
                Option::None => true,
                Option::Some(c) => !cv_same(c, value),
            },
    {
        let changed = match current {
            Option::None => true,
            Option::Some(c) => !cv_same_check(c, &value),
        };
        self.set(key, value);
        changed
    }
}

/// After a record is installed, a lookup with its key — or any key
/// that identifies the same search — returns exactly that record: the
/// same entries in the same order, the same result and controls. This
/// holds whatever the cache held before.
pub proof fn lemma_lookup_after_install(
    s: Seq<(SearchCacheKey, CachedValue)>,
    key: SearchCacheKey,
    probe: SearchCacheKey,
    value: CachedValue,
)
    requires
        key_equiv(key, probe),
    ensures
        l1_lookup(s.push((key, value)), probe) == Option::Some(value),
        l1_lookup(s.push((key, value)), key) == Option::Some(value),
{
    assert(s.push((key, value)).last() == (key, value));
    lemma_key_equiv_refl(key);
}

} // verus!
