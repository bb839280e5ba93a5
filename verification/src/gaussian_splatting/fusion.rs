//! Outcomes of fusing observations into the world model, and their tally
//! when a patch from another bot is applied.

use vstd::prelude::*;

verus! {

/// What happened to an observation during fusion. Splat identifiers are
/// the 128-bit values of their UUIDs.
#[derive(Debug)]
pub enum FusionAction {
    /// New splat created
    Created,
    /// Merged with an existing splat
    Fused { with_splat_id: u128 },
    /// Rejected due to conflict or incompatibility
    Rejected { reason: String },
}

/// Multi-bot observation fusion engine (the fusion arithmetic itself works
/// on floating-point geometry and is not part of this library).
pub struct ObservationFuser;

/// Result of applying a patch: how many splats were fused, created or
/// rejected as conflicting.
#[derive(Clone, Copy, Debug, PartialEq, Eq, Structural)]
pub struct SyncResult {
    pub fused: u32,
    pub created: u32,
    pub conflicts: u32,
}

/// Number of actions of each kind in `actions`: (fused, created, rejected).
pub open spec fn tally(actions: Seq<FusionAction>) -> (int, int, int)
    decreases actions.len(),
{
    if actions.len() == 0 {
        (0, 0, 0)
    } else {
        let t = tally(actions.drop_last());
        match actions.last() {
            FusionAction::Created => (t.0, t.1 + 1, t.2),
            FusionAction::Fused { .. } => (t.0 + 1, t.1, t.2),
            FusionAction::Rejected { .. } => (t.0, t.1, t.2 + 1),
        }
    }
}

proof fn lemma_tally_bounded(actions: Seq<FusionAction>)
    ensures
        0 <= tally(actions).0,
        0 <= tally(actions).1,
        0 <= tally(actions).2,
        tally(actions).0 + tally(actions).1 + tally(actions).2 == actions.len(),
    decreases actions.len(),
{
    if actions.len() > 0 {
        lemma_tally_bounded(actions.drop_last());
    }
}

/// Synchronization of splat stores across bots.
pub struct MultiSplatSynchronizer;

impl MultiSplatSynchronizer {
    /// Counts the fusion outcomes of a patch, one per incoming splat.
    pub fn summarize(actions: &Vec<FusionAction>) -> (r: SyncResult)
        requires
            actions@.len() <= u32::MAX,
        ensures
            r.fused == tally(actions@).0,
            r.created == tally(actions@).1,
            r.conflicts == tally(actions@).2,
            r.fused + r.created + r.conflicts == actions@.len(),
    {
        let mut r = SyncResult { fused: 0, created: 0, conflicts: 0 };
        let mut i: usize = 0;
        while i < actions.len()
            invariant
                i <= actions@.len(),
                actions@.len() <= u32::MAX,
                r.fused == tally(actions@.take(i as int)).0,
                r.created == tally(actions@.take(i as int)).1,
                r.conflicts == tally(actions@.take(i as int)).2,
            decreases actions.len() - i,
        {
            assert(actions@.take(i + 1).drop_last() =~= actions@.take(i as int));
            proof { lemma_tally_bounded(actions@.take(i as int)); }
            match &actions[i] {
                FusionAction::Created => { r.created = r.created + 1; },
                FusionAction::Fused { .. } => { r.fused = r.fused + 1; },
                FusionAction::Rejected { .. } => { r.conflicts = r.conflicts + 1; },
            }
            i = i + 1;
        }
        assert(actions@.take(actions@.len() as int) =~= actions@);
        proof { lemma_tally_bounded(actions@); }
        r
    }
}

} // verus!
