//! Cache store: keyed storage for resolved templates with time-based
//! invalidation. Staleness is evaluated lazily on read; there is no
//! background eviction.

use vstd::prelude::*;
use vstd::pervasive::VecAdditionalExecFns;
use crate::metadata::{TemplateMetadata, TemplateMetadataV};
use crate::text::str_eq;

verus! {

/// A resolved template cached on a previous resolution.
#[derive(Debug)]
pub struct CachedTemplate {
    pub metadata: TemplateMetadata,
    /// Filesystem location of the resolved template tree.
    pub path: String,
    /// Seconds since the epoch at which the entry was stored.
    pub cached_at: u64,
}

/// Mathematical model of a [`CachedTemplate`].
pub struct CachedTemplateV {
    pub metadata: TemplateMetadataV,
    pub path: Seq<char>,
    pub cached_at: u64,
}

impl View for CachedTemplate {
    type V = CachedTemplateV;

    open spec fn view(&self) -> CachedTemplateV {
        CachedTemplateV { metadata: self.metadata@, path: self.path@, cached_at: self.cached_at }
    }
}

impl DeepView for CachedTemplate {
    type V = CachedTemplateV;

    open spec fn deep_view(&self) -> CachedTemplateV {
        self.view()
    }
}

impl Clone for CachedTemplate {
    /// Clones the entry, keeping its model.
    fn clone(&self) -> (res: Self)
        ensures
            res@ == self@,
    {
        CachedTemplate {
            metadata: self.metadata.clone(),
            path: self.path.clone(),
            cached_at: self.cached_at,
        }
    }
}

/// An entry is stale once more than `ttl` seconds have passed since it
/// was stored. A clock that reads earlier than `cached_at` (clock
/// regression) is treated conservatively as stale.
pub open spec fn spec_expired(cached_at: u64, ttl: u64, now: u64) -> bool {
    now < cached_at || now - cached_at > ttl
}

/// One key/value slot of the cache store.
struct CacheSlot {
    key: String,
    value: CachedTemplate,
}

/// Keyed storage mapping a composite `type:name` key to a resolved
/// template. An entry transitions directly from absent to fully
/// populated; `put` overwrites unconditionally.
pub struct CacheStore {
    slots: Vec<CacheSlot>,
}

impl CacheStore {
    /// Keys are pairwise distinct.
    pub closed spec fn wf(&self) -> bool {
        forall|i: int, j: int|
            0 <= i < j < self.slots.len() ==> (#[trigger] self.slots[i].key)@ != (
            #[trigger] self.slots[j].key)@
    }

    /// Whether some slot holds `key`.
    closed spec fn spec_has_key(&self, key: Seq<char>) -> bool {
        exists|i: int| 0 <= i < self.slots.len() && self.slots[i].key@ == key
    }
}

impl View for CacheStore {
    type V = Map<Seq<char>, CachedTemplateV>;

    closed spec fn view(&self) -> Map<Seq<char>, CachedTemplateV> {
        Map::new(
            |k: Seq<char>| self.spec_has_key(k),
            |k: Seq<char>|
                {
                    let i = choose|i: int| 0 <= i < self.slots.len() && self.slots[i].key@ == k;
                    self.slots[i].value@
                },
        )
    }
}

impl CacheStore {
    /// An empty cache store.
    pub fn new() -> (r: Self)
        ensures
            r.wf(),
            r@ == Map::<Seq<char>, CachedTemplateV>::empty(),
    {
        let r = CacheStore { slots: Vec::new() };
        proof {
            assert(r@ =~= Map::<Seq<char>, CachedTemplateV>::empty());
        }
        r
    }

    /// Looks the key up at clock reading `now`: the stored entry when
    /// there is one and it has not outlived `ttl`, `None` when the key is
    /// absent or the entry is stale. Staleness is evaluated here, lazily,
    /// on each read.
    pub fn get(&self, key: &str, ttl: u64, now: u64) -> (r: Option<&CachedTemplate>)
        requires
            self.wf(),
        ensures
            (match r {
                Some(c) => self@.contains_key(key@) && c@ == self@[key@] && !spec_expired(
                    c.cached_at,
                    ttl,
                    now,
                ),
                None => !self@.contains_key(key@) || spec_expired(
                    self@[key@].cached_at,
                    ttl,
                    now,
                ),
            }),
    {
        let n = self.slots.len();
        let mut i: usize = 0;
        while i < n
            invariant
                self.wf(),
                n == self.slots.len(),
                i <= n,
                forall|k: int| 0 <= k < i ==> (#[trigger] self.slots@[k].key)@ != key@,
            decreases n - i,
        {
            if str_eq(self.slots[i].key.as_str(), key) {
                proof {
                    assert(self.spec_has_key(key@));
                    let w = choose|w: int|
                        0 <= w < self.slots.len() && self.slots[w].key@ == key@;
                    assert(w == i);
                }
                let cached_at = self.slots[i].value.cached_at;
                if now < cached_at || now - cached_at > ttl {
                    return None;
                }
                return Some(&self.slots[i].value);
            }
            i = i + 1;
        }
        proof {
            assert(!self.spec_has_key(key@));
        }
        None
    }

    /// Stores `value` under `key`, overwriting any previous entry.
    pub fn put(&mut self, key: String, value: CachedTemplate)
        requires
            old(self).wf(),
        ensures
            final(self).wf(),
            final(self)@ == old(self)@.insert(key@, value@),
    {
        let n = self.slots.len();
        let mut i: usize = 0;
        while i < n
            invariant
                self.wf(),
                *self == *old(self),
                n == self.slots.len(),
                i <= n,
                forall|k: int| 0 <= k < i ==> (#[trigger] self.slots@[k].key)@ != key@,
            decreases n - i,
        {
            if str_eq(self.slots[i].key.as_str(), key.as_str()) {
                let ghost prev = *self;
                let slot = CacheSlot { key, value };
                self.slots.set(i, slot);
                proof {
                    assert forall|p: int, q: int|
                        0 <= p < q < self.slots.len() implies (#[trigger] self.slots[p].key)@ != (
                    #[trigger] self.slots[q].key)@ by {
                        assert(prev.slots[p].key@ != prev.slots[q].key@);
                    }
                    assert forall|k: Seq<char>| #[trigger]
                        self@.dom().contains(k) == prev@.insert(key@, value@).dom().contains(
                        k,
                    ) by {
                        if k == key@ {
                            assert(self.slots[i as int].key@ == k);
                            assert(self.spec_has_key(k));
                        } else {
                            assert(self.spec_has_key(k) == prev.spec_has_key(k)) by {
                                if self.spec_has_key(k) {
                                    let w = choose|w: int|
                                        0 <= w < self.slots.len() && self.slots[w].key@ == k;
                                    assert(prev.slots[w].key@ == k);
                                }
                                if prev.spec_has_key(k) {
                                    let w = choose|w: int|
                                        0 <= w < prev.slots.len() && prev.slots[w].key@ == k;
                                    assert(self.slots[w].key@ == k);
                                }
                            }
                        }
                    }
                    assert forall|k: Seq<char>| self@.dom().contains(k) implies self@[k]
                        == prev@.insert(key@, value@)[k] by {
                        let w = choose|w: int|
                            0 <= w < self.slots.len() && self.slots[w].key@ == k;
                        if k == key@ {
                            assert(w == i);
                        } else {
                            assert(w != i);
                            let w2 = choose|w2: int|
                                0 <= w2 < prev.slots.len() && prev.slots[w2].key@ == k;
                            assert(w2 == w);
                        }
                    }
                    assert(self@ =~= prev@.insert(key@, value@));
                }
                return ;
            }
            i = i + 1;
        }
        let ghost prev = *self;
        let slot = CacheSlot { key, value };
        self.slots.push(slot);
        proof {
            assert forall|p: int, q: int|
                0 <= p < q < self.slots.len() implies (#[trigger] self.slots[p].key)@ != (
            #[trigger] self.slots[q].key)@ by {
                if q < prev.slots.len() {
                    assert(prev.slots[p].key@ != prev.slots[q].key@);
                } else {
                    assert(self.slots[q].key@ == key@);
                    assert(prev.slots[p].key@ != key@);
                }
            }
            assert forall|k: Seq<char>| #[trigger]
                self@.dom().contains(k) == prev@.insert(key@, value@).dom().contains(k) by {
                if k == key@ {
                    assert(self.slots[self.slots.len() - 1].key@ == k);
                    assert(self.spec_has_key(k));
                } else {
                    assert(self.spec_has_key(k) == prev.spec_has_key(k)) by {
                        if self.spec_has_key(k) {
                            let w = choose|w: int|
                                0 <= w < self.slots.len() && self.slots[w].key@ == k;
                            assert(w < prev.slots.len());
                            assert(prev.slots[w].key@ == k);
                        }
                        if prev.spec_has_key(k) {
                            let w = choose|w: int|
                                0 <= w < prev.slots.len() && prev.slots[w].key@ == k;
                            assert(self.slots[w].key@ == k);
                        }
                    }
                }
            }
            assert forall|k: Seq<char>| self@.dom().contains(k) implies self@[k] == prev@.insert(
                key@,
                value@,
            )[k] by {
                let w = choose|w: int| 0 <= w < self.slots.len() && self.slots[w].key@ == k;
                if k == key@ {
                    assert(w == self.slots.len() - 1) by {
                        if w < self.slots.len() - 1 {
                            assert(prev.slots[w].key@ != key@);
                        }
                    }
                } else {
                    assert(w < prev.slots.len());
                    let w2 = choose|w2: int| 0 <= w2 < prev.slots.len() && prev.slots[w2].key@ == k;
                    assert(w2 == w);
                }
            }
            assert(self@ =~= prev@.insert(key@, value@));
        }
    }
}

} // verus!
