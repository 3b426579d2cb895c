//! The per-node result cache: memoizes size computations keyed by the
//! shape of the call, bounded to a small fixed number of recent entries,
//! since the same handful of call shapes recur across passes.

use vstd::prelude::*;
use crate::unit::Unit;
use crate::geometry::Size;
use crate::style::AvailableSpace;
use crate::layout::{RunMode, SizeBaselinesAndMargins};

verus! {

/// The most entries one node's cache keeps; storing into a full cache
/// evicts the oldest entry.
pub const CACHE_CAPACITY: usize = 8;

/// One memoized computation: the call shape it answers, and its result.
#[derive(Copy, Clone, Debug, PartialEq, Eq, Structural)]
pub struct CacheEntry {
    /// The known dimensions the computation was keyed by.
    pub known_dimensions: Size<Option<Unit>>,
    /// The available space the computation was keyed by.
    pub available_space: Size<AvailableSpace>,
    /// Whether the entry answers a full layout or only a sizing call.
    pub run_mode: RunMode,
    /// The memoized result.
    pub cached_size_and_baselines: SizeBaselinesAndMargins,
}

/// Whether an entry answers a call: the known dimensions, available space
/// and run mode must all be identical. With integer subunits this definite
/// comparison coincides with the rough one on every finite amount.
pub open spec fn spec_key_matches(
    entry: CacheEntry,
    known_dimensions: Size<Option<Unit>>,
    available_space: Size<AvailableSpace>,
    run_mode: RunMode,
) -> bool {
    entry.known_dimensions == known_dimensions && entry.available_space == available_space
        && entry.run_mode == run_mode
}

/// The first entry answering a call, if any.
pub open spec fn spec_lookup(
    entries: Seq<CacheEntry>,
    known_dimensions: Size<Option<Unit>>,
    available_space: Size<AvailableSpace>,
    run_mode: RunMode,
) -> Option<SizeBaselinesAndMargins>
    decreases entries.len(),
{
    if entries.len() == 0 {
        None
    } else if spec_key_matches(entries[0], known_dimensions, available_space, run_mode) {
        Some(entries[0].cached_size_and_baselines)
    } else {
        spec_lookup(entries.drop_first(), known_dimensions, available_space, run_mode)
    }
}

/// When the first `k` entries do not answer a call and entry `k` does, the
/// lookup answers with entry `k`.
proof fn lemma_lookup_first_match(
    entries: Seq<CacheEntry>,
    known_dimensions: Size<Option<Unit>>,
    available_space: Size<AvailableSpace>,
    run_mode: RunMode,
    k: int,
)
    requires
        0 <= k < entries.len(),
        forall|j: int|
            0 <= j < k ==> !spec_key_matches(
                #[trigger] entries[j],
                known_dimensions,
                available_space,
                run_mode,
            ),
        spec_key_matches(entries[k], known_dimensions, available_space, run_mode),
    ensures
        spec_lookup(entries, known_dimensions, available_space, run_mode) == Some(
            entries[k].cached_size_and_baselines,
        ),
    decreases k,
{
    if k > 0 {
        lemma_lookup_first_match(
            entries.drop_first(),
            known_dimensions,
            available_space,
            run_mode,
            k - 1,
        );
    }
}

/// When no entry answers a call, the lookup answers nothing.
proof fn lemma_lookup_no_match(
    entries: Seq<CacheEntry>,
    known_dimensions: Size<Option<Unit>>,
    available_space: Size<AvailableSpace>,
    run_mode: RunMode,
)
    requires
        forall|j: int|
            0 <= j < entries.len() ==> !spec_key_matches(
                #[trigger] entries[j],
                known_dimensions,
                available_space,
                run_mode,
            ),
    ensures
        spec_lookup(entries, known_dimensions, available_space, run_mode) is None,
    decreases entries.len(),
{
    if entries.len() > 0 {
        lemma_lookup_no_match(entries.drop_first(), known_dimensions, available_space, run_mode);
    }
}

/// A bounded memo of recent size computations for one node.
#[derive(Clone, Debug)]
pub struct Cache {
    /// The memoized entries, oldest first.
    entries: Vec<CacheEntry>,
}

impl Cache {
    /// The entries the cache currently holds, oldest first.
    pub closed spec fn spec_entries(self) -> Seq<CacheEntry> {
        self.entries@
    }

    /// The cache never holds more than its fixed capacity.
    pub closed spec fn wf(self) -> bool {
        self.entries@.len() <= CACHE_CAPACITY
    }

    /// An empty cache.
    pub fn new() -> (r: Cache)
        ensures
            r.spec_entries().len() == 0,
            r.wf(),
    {
        Cache { entries: Vec::new() }
    }

    /// Forget every memoized result.
    pub fn clear(&mut self)
        ensures
            final(self).spec_entries().len() == 0,
            final(self).wf(),
    {
        self.entries.clear();
    }

    /// Whether the cache holds no entries.
    pub fn is_empty(&self) -> (r: bool)
        ensures
            r == (self.spec_entries().len() == 0),
    {
        self.entries.len() == 0
    }

    /// Whether an entry answers the call.
    fn key_matches(
        entry: &CacheEntry,
        known_dimensions: Size<Option<Unit>>,
        available_space: Size<AvailableSpace>,
        run_mode: RunMode,
    ) -> (r: bool)
        ensures
            r == spec_key_matches(*entry, known_dimensions, available_space, run_mode),
    {
        let known_eq = match (entry.known_dimensions.width, known_dimensions.width) {
            (Some(a), Some(b)) => a.repr == b.repr,
            (None, None) => true,
            _ => false,
        } && match (entry.known_dimensions.height, known_dimensions.height) {
            (Some(a), Some(b)) => a.repr == b.repr,
            (None, None) => true,
            _ => false,
        };
        let avail_eq = match (entry.available_space.width, available_space.width) {
            (AvailableSpace::Definite(a), AvailableSpace::Definite(b)) => a.repr == b.repr,
            (AvailableSpace::MinContent, AvailableSpace::MinContent) => true,
            (AvailableSpace::MaxContent, AvailableSpace::MaxContent) => true,
            _ => false,
        } && match (entry.available_space.height, available_space.height) {
            (AvailableSpace::Definite(a), AvailableSpace::Definite(b)) => a.repr == b.repr,
            (AvailableSpace::MinContent, AvailableSpace::MinContent) => true,
            (AvailableSpace::MaxContent, AvailableSpace::MaxContent) => true,
            _ => false,
        };
        let mode_eq = match (entry.run_mode, run_mode) {
            (RunMode::PerformLayout, RunMode::PerformLayout) => true,
            (RunMode::ComputeSize, RunMode::ComputeSize) => true,
            _ => false,
        };
        known_eq && avail_eq && mode_eq
    }

    /// The memoized result for a call shape, if one is held. A hit returns
    /// exactly what was stored for that key, so a hit is bit-identical to
    /// the recomputation whose result was stored.
    pub fn get(
        &self,
        known_dimensions: Size<Option<Unit>>,
        available_space: Size<AvailableSpace>,
        run_mode: RunMode,
    ) -> (r: Option<SizeBaselinesAndMargins>)
        ensures
            r == spec_lookup(self.spec_entries(), known_dimensions, available_space, run_mode),
    {
        let n = self.entries.len();
        let mut i: usize = 0;
        while i < n
            invariant
                0 <= i <= n,
                n == self.entries@.len(),
                forall|j: int|
                    0 <= j < i ==> !spec_key_matches(
                        #[trigger] self.entries@[j],
                        known_dimensions,
                        available_space,
                        run_mode,
                    ),
            decreases n - i,
        {
            if Self::key_matches(&self.entries[i], known_dimensions, available_space, run_mode) {
                proof {
                    lemma_lookup_first_match(
                        self.entries@,
                        known_dimensions,
                        available_space,
                        run_mode,
                        i as int,
                    );
                }
                return Some(self.entries[i].cached_size_and_baselines);
            }
            i = i + 1;
        }
        proof {
            lemma_lookup_no_match(self.entries@, known_dimensions, available_space, run_mode);
        }
        None
    }

    /// Memoize a result for a call shape. Afterwards the lookup for that
    /// shape answers exactly the stored result; an entry for the same shape
    /// is overwritten, and a full cache evicts its oldest entry. Every
    /// entry the cache holds afterwards was either already held or is the
    /// stored one.
    pub fn store(
        &mut self,
        known_dimensions: Size<Option<Unit>>,
        available_space: Size<AvailableSpace>,
        run_mode: RunMode,
        result: SizeBaselinesAndMargins,
    )
        requires
            old(self).wf(),
        ensures
            final(self).wf(),
            spec_lookup(
                final(self).spec_entries(),
                known_dimensions,
                available_space,
                run_mode,
            ) == Some(result),
            forall|i: int|
                0 <= i < final(self).spec_entries().len() ==> old(self).spec_entries().contains(
                    #[trigger] final(self).spec_entries()[i],
                ) || final(self).spec_entries()[i] == (CacheEntry {
                    known_dimensions,
                    available_space,
                    run_mode,
                    cached_size_and_baselines: result,
                }),
    {
        let entry = CacheEntry {
            known_dimensions,
            available_space,
            run_mode,
            cached_size_and_baselines: result,
        };
        let n = self.entries.len();
        let mut i: usize = 0;
        while i < n
            invariant
                0 <= i <= n,
                n == self.entries@.len(),
                self.entries@ == old(self).entries@,
                self.entries@.len() <= CACHE_CAPACITY,
                entry == (CacheEntry {
                    known_dimensions,
                    available_space,
                    run_mode,
                    cached_size_and_baselines: result,
                }),
                forall|j: int|
                    0 <= j < i ==> !spec_key_matches(
                        #[trigger] self.entries@[j],
                        known_dimensions,
                        available_space,
                        run_mode,
                    ),
            decreases n - i,
        {
            if Self::key_matches(&self.entries[i], known_dimensions, available_space, run_mode) {
                self.entries[i] = entry;
                proof {
                    assert(spec_key_matches(
                        self.entries@[i as int],
                        known_dimensions,
                        available_space,
                        run_mode,
                    ));
                    lemma_lookup_first_match(
                        self.entries@,
                        known_dimensions,
                        available_space,
                        run_mode,
                        i as int,
                    );
                }
                return ;
            }
            i = i + 1;
        }
        if self.entries.len() >= CACHE_CAPACITY {
            self.entries.remove(0);
        }
        self.entries.push(entry);
        proof {
            let entries = self.entries@;
            let k = entries.len() - 1;
            assert(entries[k] == entry);
            if old(self).spec_entries().len() >= CACHE_CAPACITY {
                assert(forall|j: int|
                    0 <= j < k ==> entries[j] == old(self).spec_entries().remove(0)[j]);
            }
            assert forall|j: int| 0 <= j < k implies !spec_key_matches(
                #[trigger] entries[j],
                known_dimensions,
                available_space,
                run_mode,
            ) by {
                if old(self).spec_entries().len() < CACHE_CAPACITY {
                    assert(entries[j] == old(self).spec_entries()[j]);
                } else {
                    assert(entries[j] == old(self).spec_entries()[j + 1]);
                }
            }
            lemma_lookup_first_match(entries, known_dimensions, available_space, run_mode, k);
        }
    }
}

} // verus!
