//! The append-only observation store at the heart of the terrain map:
//! observations can be added and read back, never changed or removed one by
//! one (only the whole store can be cleared). The observation type is a
//! parameter; the store only keeps them in arrival order.

use vstd::prelude::*;

verus! {

/// Append-only log of observations, in arrival order.
pub struct ObservationLog<T> {
    entries: Vec<T>,
}

impl<T> ObservationLog<T> {
    /// The observations stored, oldest first.
    pub closed spec fn items(&self) -> Seq<T> {
        self.entries@
    }

    /// An empty store.
    pub fn new() -> (l: Self)
        ensures
            l.items() == Seq::<T>::empty(),
    {
        ObservationLog { entries: Vec::new() }
    }

    /// Appends one observation after all those stored.
    pub fn push_observation(&mut self, obs: T)
        ensures
            final(self).items() == old(self).items().push(obs),
    {
        self.entries.push(obs);
    }

    /// Appends a batch, in its order, after all those stored, and returns
    /// how many observations the batch held.
    pub fn push_batch(&mut self, batch: Vec<T>) -> (n: usize)
        ensures
            n == batch@.len(),
            final(self).items() == old(self).items() + batch@,
    {
        let mut batch = batch;
        let n = batch.len();
        self.entries.append(&mut batch);
        n
    }

    /// All observations, oldest first.
    pub fn observations(&self) -> (v: &Vec<T>)
        ensures
            v@ == self.items(),
    {
        &self.entries
    }

    /// Number of observations stored.
    pub fn len(&self) -> (n: usize)
        ensures
            n == self.items().len(),
    {
        self.entries.len()
    }

    /// Whether the store is empty.
    pub fn is_empty(&self) -> (b: bool)
        ensures
            b == (self.items().len() == 0),
    {
        self.entries.len() == 0
    }

    /// Removes every observation.
    pub fn clear(&mut self)
        ensures
            final(self).items() == Seq::<T>::empty(),
    {
        self.entries.clear();
    }
}

/// Appending never rewrites history: whatever is appended, the observations
/// stored before are still the first ones, unchanged and in order.
pub proof fn lemma_push_keeps_prefix<T>(before: Seq<T>, after: Seq<T>, added: Seq<T>)
    requires
        after == before + added,
    ensures
        after.take(before.len() as int) == before,
        after.len() == before.len() + added.len(),
{
    assert(after.take(before.len() as int) =~= before);
}

} // verus!
