//! Spatial-temporal query builder: bundles a spatial index, a temporal
//! index and a shared observation store with the time at which decay is
//! evaluated. The index and store types are parameters, since the query
//! only carries them.

use vstd::prelude::*;
use std::sync::Arc;

verus! {

/// Spatial-temporal query over a spatial index `S`, a temporal index `T`
/// and a store `St`.
pub struct Query<S, T, St> {
    spatial: S,
    temporal: T,
    store: Arc<St>,
    current_time_us: i64,
}

impl<S, T, St> Query<S, T, St> {
    /// The spatial index.
    pub closed spec fn spatial_index(&self) -> S {
        self.spatial
    }

    /// The temporal index.
    pub closed spec fn temporal_index(&self) -> T {
        self.temporal
    }

    /// The shared store.
    pub closed spec fn shared_store(&self) -> Arc<St> {
        self.store
    }

    /// Time at which decay is evaluated, in microseconds.
    pub closed spec fn time_us(&self) -> i64 {
        self.current_time_us
    }

    pub fn new(spatial: S, temporal: T, store: Arc<St>, current_time_us: i64) -> (q: Self)
        ensures
            q.spatial_index() == spatial,
            q.temporal_index() == temporal,
            q.shared_store() == store,
            q.time_us() == current_time_us,
    {
        Query { spatial, temporal, store, current_time_us }
    }

    /// The same query evaluated at `current_time_us`.
    pub fn with_time(self, current_time_us: i64) -> (q: Self)
        ensures
            q.spatial_index() == self.spatial_index(),
            q.temporal_index() == self.temporal_index(),
            q.shared_store() == self.shared_store(),
            q.time_us() == current_time_us,
    {
        let mut q = self;
        q.current_time_us = current_time_us;
        q
    }

    /// Time at which decay is evaluated.
    pub fn current_time_us(&self) -> (t: i64)
        ensures
            t == self.time_us(),
    {
        self.current_time_us
    }
}

} // verus!
