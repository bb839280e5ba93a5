//! Object pooling: returned objects are kept for reuse up to a bound, and
//! hits, misses and returns are counted.

use vstd::prelude::*;

verus! {

/// Configuration for the pools.
#[derive(Clone, Copy, Debug, PartialEq, Eq, Structural)]
pub struct PoolConfig {
    /// Initial capacity of the splat pool
    pub splat_pool_size: usize,
    /// Most splats the pool keeps
    pub splat_pool_max: usize,
    /// Initial capacity of the observation pool
    pub observation_pool_size: usize,
    /// Most observations the pool keeps
    pub observation_pool_max: usize,
    /// Whether usage statistics are kept
    pub track_stats: bool,
}

impl Default for PoolConfig {
    fn default() -> (c: Self)
        ensures
            c == (PoolConfig {
                splat_pool_size: 100,
                splat_pool_max: 10000,
                observation_pool_size: 1000,
                observation_pool_max: 100000,
                track_stats: true,
            }),
    {
        PoolConfig {
            splat_pool_size: 100,
            splat_pool_max: 10000,
            observation_pool_size: 1000,
            observation_pool_max: 100000,
            track_stats: true,
        }
    }
}

/// Pool usage statistics.
#[derive(Clone, Copy, Debug, PartialEq, Eq, Structural)]
pub struct PoolStats {
    /// Total allocations from the pool
    pub allocations: u64,
    /// Objects returned to and kept by the pool
    pub deallocations: u64,
    /// Allocations served by a pooled object
    pub cache_hits: u64,
    /// Allocations that needed a new object
    pub cache_misses: u64,
    /// Pool size after the last kept return
    pub pool_size: usize,
    /// Largest pool size reached
    pub max_pool_size: usize,
}

/// All counters zero.
pub open spec fn empty_stats() -> PoolStats {
    PoolStats {
        allocations: 0,
        deallocations: 0,
        cache_hits: 0,
        cache_misses: 0,
        pool_size: 0,
        max_pool_size: 0,
    }
}

impl Default for PoolStats {
    fn default() -> (s: Self)
        ensures
            s == empty_stats(),
    {
        PoolStats {
            allocations: 0,
            deallocations: 0,
            cache_hits: 0,
            cache_misses: 0,
            pool_size: 0,
            max_pool_size: 0,
        }
    }
}

/// Statistics of both pools.
#[derive(Clone, Copy, Debug, PartialEq, Eq, Structural)]
pub struct MemoryPoolStats {
    pub splat_stats: PoolStats,
    pub observation_stats: PoolStats,
}

/// A bounded pool of reusable objects.
pub struct ObjectPool<T> {
    available: Vec<T>,
    max_size: usize,
    track_stats: bool,
    stats: PoolStats,
}

impl<T> ObjectPool<T> {
    /// Objects waiting for reuse; the last is handed out first.
    pub closed spec fn pooled(&self) -> Seq<T> {
        self.available@
    }

    /// Most objects the pool keeps.
    pub closed spec fn capacity(&self) -> usize {
        self.max_size
    }

    /// Whether statistics are kept.
    pub closed spec fn tracking(&self) -> bool {
        self.track_stats
    }

    /// Current statistics.
    pub closed spec fn usage(&self) -> PoolStats {
        self.stats
    }

    /// The pool never holds more than its capacity, and the recorded sizes
    /// never exceed it either.
    pub closed spec fn wf(&self) -> bool {
        &&& self.available@.len() <= self.max_size
        &&& self.stats.pool_size <= self.max_size
        &&& self.stats.max_pool_size <= self.max_size
    }

    /// An empty pool keeping at most `max_size` objects.
    pub fn new(max_size: usize, track_stats: bool) -> (p: Self)
        ensures
            p.wf(),
            p.pooled() == Seq::<T>::empty(),
            p.capacity() == max_size,
            p.tracking() == track_stats,
            p.usage() == empty_stats(),
    {
        ObjectPool { available: Vec::new(), max_size, track_stats, stats: PoolStats::default() }
    }

    /// Takes the most recently returned object, if any. A hit or a miss is
    /// counted when statistics are kept.
    pub fn allocate(&mut self) -> (o: Option<T>)
        requires
            old(self).wf(),
            old(self).usage().cache_hits < u64::MAX,
            old(self).usage().cache_misses < u64::MAX,
        ensures
            final(self).wf(),
            final(self).capacity() == old(self).capacity(),
            final(self).tracking() == old(self).tracking(),
            old(self).pooled().len() > 0 ==> {
                &&& o == Some(old(self).pooled().last())
                &&& final(self).pooled() == old(self).pooled().drop_last()
                &&& final(self).usage() == if old(self).tracking() {
                    PoolStats { cache_hits: (old(self).usage().cache_hits + 1) as u64, ..old(self).usage() }
                } else {
                    old(self).usage()
                }
            },
            old(self).pooled().len() == 0 ==> {
                &&& o is None
                &&& final(self).pooled() == old(self).pooled()
                &&& final(self).usage() == if old(self).tracking() {
                    PoolStats { cache_misses: (old(self).usage().cache_misses + 1) as u64, ..old(self).usage() }
                } else {
                    old(self).usage()
                }
            },
    {
        match self.available.pop() {
            Some(obj) => {
                if self.track_stats {
                    self.stats.cache_hits = self.stats.cache_hits + 1;
                }
                Some(obj)
            },
            None => {
                if self.track_stats {
                    self.stats.cache_misses = self.stats.cache_misses + 1;
                }
                None
            },
        }
    }

    /// Returns an object to the pool. It is kept, and counted when
    /// statistics are kept, only while the pool is below capacity; the
    /// result says whether it was kept.
    pub fn deallocate(&mut self, obj: T) -> (kept: bool)
        requires
            old(self).wf(),
            old(self).usage().deallocations < u64::MAX,
        ensures
            final(self).wf(),
            final(self).capacity() == old(self).capacity(),
            final(self).tracking() == old(self).tracking(),
            kept == (old(self).pooled().len() < old(self).capacity()),
            kept ==> final(self).pooled() == old(self).pooled().push(obj),
            !kept ==> final(self).pooled() == old(self).pooled(),
            final(self).usage() == if kept && old(self).tracking() {
                let n = old(self).pooled().len() + 1;
                PoolStats {
                    deallocations: (old(self).usage().deallocations + 1) as u64,
                    pool_size: n as usize,
                    max_pool_size: if n > old(self).usage().max_pool_size {
                        n as usize
                    } else {
                        old(self).usage().max_pool_size
                    },
                    ..old(self).usage()
                }
            } else {
                old(self).usage()
            },
    {
        if self.available.len() < self.max_size {
            self.available.push(obj);
            if self.track_stats {
                self.stats.deallocations = self.stats.deallocations + 1;
                self.stats.pool_size = self.available.len();
                if self.available.len() > self.stats.max_pool_size {
                    self.stats.max_pool_size = self.available.len();
                }
            }
            true
        } else {
            false
        }
    }

    /// Current statistics.
    pub fn stats(&self) -> (s: PoolStats)
        ensures
            s == self.usage(),
    {
        self.stats
    }

    /// Number of objects waiting for reuse.
    pub fn len(&self) -> (n: usize)
        ensures
            n == self.pooled().len(),
    {
        self.available.len()
    }

    /// Drops every pooled object; statistics are kept as they are.
    pub fn clear(&mut self)
        requires
            old(self).wf(),
        ensures
            final(self).wf(),
            final(self).pooled() == Seq::<T>::empty(),
            final(self).capacity() == old(self).capacity(),
            final(self).tracking() == old(self).tracking(),
            final(self).usage() == old(self).usage(),
    {
        self.available.clear();
    }
}

/// Whatever the sequence of operations, a well-formed pool holds at most its
/// capacity, and the largest size it records is at most its capacity.
pub proof fn lemma_pool_bounded<T>(p: ObjectPool<T>)
    requires
        p.wf(),
    ensures
        p.pooled().len() <= p.capacity(),
        p.usage().max_pool_size <= p.capacity(),
        p.usage().pool_size <= p.capacity(),
{
}

} // verus!
