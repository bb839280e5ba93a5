//! Combinatorial side of 3D reconstruction: RANSAC inlier masks, the
//! edge structure of a pose graph, the real-time optimisation schedule and
//! IMU pre-integration windows. The geometry itself (poses, matrices,
//! reprojection errors) is floating point and lives outside this crate.

use vstd::prelude::*;
use crate::types::{Error, Result};
use crate::text::owned;

verus! {

/// Indices `i < n` at which `mask[i] == want`, in increasing order.
pub open spec fn mask_positions(mask: Seq<bool>, want: bool, n: int) -> Seq<usize>
    decreases n,
{
    if n <= 0 {
        Seq::empty()
    } else if mask[n - 1] == want {
        mask_positions(mask, want, n - 1).push((n - 1) as usize)
    } else {
        mask_positions(mask, want, n - 1)
    }
}

/// Every position listed for `want` holds `want`, lies below `n`, and the
/// list is strictly increasing.
pub proof fn lemma_mask_positions_sound(mask: Seq<bool>, want: bool, n: int)
    requires
        0 <= n <= mask.len(),
        mask.len() <= usize::MAX,
    ensures
        forall|k: int|
            0 <= k < mask_positions(mask, want, n).len() ==> {
                let p = #[trigger] mask_positions(mask, want, n)[k];
                p < n && mask[p as int] == want
            },
        forall|k: int, l: int|
            0 <= k < l < mask_positions(mask, want, n).len() ==> mask_positions(mask, want, n)[k]
                < mask_positions(mask, want, n)[l],
    decreases n,
{
    if n > 0 {
        lemma_mask_positions_sound(mask, want, n - 1);
        let prev = mask_positions(mask, want, n - 1);
        if mask[n - 1] == want {
            let cur = prev.push((n - 1) as usize);
            assert(cur[cur.len() - 1] == n - 1);
            assert forall|k: int, l: int| 0 <= k < l < cur.len() implies cur[k] < cur[l] by {
                if l == cur.len() - 1 {
                    assert(cur[k] == prev[k]);
                } else {
                    assert(cur[k] == prev[k] && cur[l] == prev[l]);
                }
            }
        }
    }
}

/// Each index below `n` is listed either among the positions of `true` or
/// among those of `false`, and the two lists together are exactly `n` long.
pub proof fn lemma_mask_partition(mask: Seq<bool>, n: int)
    requires
        0 <= n <= mask.len(),
        mask.len() <= usize::MAX,
    ensures
        mask_positions(mask, true, n).len() + mask_positions(mask, false, n).len() == n,
        forall|i: int|
            0 <= i < n ==> (mask_positions(mask, mask[i], n).contains(i as usize)),
    decreases n,
{
    if n > 0 {
        lemma_mask_partition(mask, n - 1);
        assert forall|i: int| 0 <= i < n implies mask_positions(mask, mask[i], n).contains(
            i as usize,
        ) by {
            if i < n - 1 {
                let prev = mask_positions(mask, mask[i], n - 1);
                let k = choose|k: int| 0 <= k < prev.len() && prev[k] == i as usize;
                if mask[n - 1] == mask[i] {
                    assert(mask_positions(mask, mask[i], n) == prev.push((n - 1) as usize));
                    assert(mask_positions(mask, mask[i], n)[k] == i as usize);
                } else {
                    assert(mask_positions(mask, mask[i], n)[k] == i as usize);
                }
            } else {
                let cur = mask_positions(mask, mask[i], n);
                assert(cur[cur.len() - 1] == i as usize);
            }
        }
    }
}

/// Outcome of a RANSAC run, reduced to the inlier classification of the
/// candidate matches (the estimated matrix is kept by the caller).
#[derive(Clone, Debug)]
pub struct RansacResult {
    /// Inlier mask (true = inlier, false = outlier)
    pub inlier_mask: Vec<bool>,
    /// Number of inliers
    pub inlier_count: usize,
    /// Number of outliers
    pub outlier_count: usize,
}

/// Collects the indices of `mask` that hold `want`.
fn positions_of(mask: &Vec<bool>, want: bool) -> (r: Vec<usize>)
    ensures
        r@ == mask_positions(mask@, want, mask@.len() as int),
{
    let mut r: Vec<usize> = Vec::new();
    let mut i: usize = 0;
    while i < mask.len()
        invariant
            i <= mask.len(),
            r@ == mask_positions(mask@, want, i as int),
        decreases mask.len() - i,
    {
        if mask[i] == want {
            r.push(i);
        }
        i = i + 1;
    }
    r
}

impl RansacResult {
    /// Indices of inlier matches, in increasing order.
    pub fn get_inliers(&self) -> (r: Vec<usize>)
        ensures
            r@ == mask_positions(self.inlier_mask@, true, self.inlier_mask@.len() as int),
    {
        positions_of(&self.inlier_mask, true)
    }

    /// Indices of outlier matches, in increasing order.
    pub fn get_outliers(&self) -> (r: Vec<usize>)
        ensures
            r@ == mask_positions(self.inlier_mask@, false, self.inlier_mask@.len() as int),
    {
        positions_of(&self.inlier_mask, false)
    }
}

/// The inlier and outlier index lists partition the candidate matches: together
/// they are as long as the mask, and every match index appears in the list
/// of its own class.
pub proof fn lemma_inliers_outliers_partition(r: RansacResult)
    ensures
        mask_positions(r.inlier_mask@, true, r.inlier_mask@.len() as int).len() + mask_positions(
            r.inlier_mask@,
            false,
            r.inlier_mask@.len() as int,
        ).len() == r.inlier_mask@.len(),
        forall|i: int|
            0 <= i < r.inlier_mask@.len() ==> (r.inlier_mask@[i] ==> mask_positions(
                r.inlier_mask@,
                true,
                r.inlier_mask@.len() as int,
            ).contains(i as usize)) && (!r.inlier_mask@[i] ==> mask_positions(
                r.inlier_mask@,
                false,
                r.inlier_mask@.len() as int,
            ).contains(i as usize)),
{
    let n = r.inlier_mask@.len() as int;
    assert(r.inlier_mask.len() == n);
    lemma_mask_partition(r.inlier_mask@, n);
}

/// Edge type classification.
#[derive(Clone, Copy, Debug, PartialEq, Eq, Structural)]
pub enum EdgeType {
    /// Sequential edge between consecutive keyframes
    Sequential,
    /// Loop closure edge
    LoopClosure,
}

/// A constraint between two keyframes of a pose graph. The relative pose
/// and its weight are geometry and stay with the caller.
#[derive(Clone, Copy, Debug, PartialEq, Eq, Structural)]
pub struct PoseGraphEdge {
    /// From keyframe index
    pub from_idx: usize,
    /// To keyframe index
    pub to_idx: usize,
    /// Edge type (sequential or loop closure)
    pub edge_type: EdgeType,
}

impl PoseGraphEdge {
    /// Edge between consecutive keyframes.
    pub fn sequential(from_idx: usize, to_idx: usize) -> (e: Self)
        ensures
            e == (PoseGraphEdge { from_idx, to_idx, edge_type: EdgeType::Sequential }),
    {
        PoseGraphEdge { from_idx, to_idx, edge_type: EdgeType::Sequential }
    }

    /// Edge closing a loop between two keyframes.
    pub fn loop_closure(from_idx: usize, to_idx: usize) -> (e: Self)
        ensures
            e == (PoseGraphEdge { from_idx, to_idx, edge_type: EdgeType::LoopClosure }),
    {
        PoseGraphEdge { from_idx, to_idx, edge_type: EdgeType::LoopClosure }
    }
}

/// Number of edges of kind `t` among the first `n` edges.
pub open spec fn count_kind(edges: Seq<PoseGraphEdge>, t: EdgeType, n: int) -> nat
    decreases n,
{
    if n <= 0 {
        0
    } else {
        count_kind(edges, t, n - 1) + if edges[n - 1].edge_type == t {
            1nat
        } else {
            0nat
        }
    }
}

/// Sequential edges `i -> i + 1` for `i` in `start..start + k`.
pub open spec fn chain_edges(start: int, k: int) -> Seq<PoseGraphEdge>
    decreases k,
{
    if k <= 0 {
        Seq::empty()
    } else {
        chain_edges(start, k - 1).push(
            PoseGraphEdge {
                from_idx: (start + k - 1) as usize,
                to_idx: (start + k) as usize,
                edge_type: EdgeType::Sequential,
            },
        )
    }
}

/// Loop-closure edges for the given keyframe pairs, in order.
pub open spec fn loop_edges(pairs: Seq<(usize, usize)>) -> Seq<PoseGraphEdge> {
    Seq::new(
        pairs.len(),
        |i: int| PoseGraphEdge { from_idx: pairs[i].0, to_idx: pairs[i].1, edge_type: EdgeType::LoopClosure },
    )
}

/// The chain of sequential edges from keyframe `start` links each keyframe to
/// the next: its `i`-th edge runs from `start + i` to `start + i + 1`.
pub proof fn lemma_chain_edges_link_neighbours(start: int, k: int)
    requires
        0 <= start,
        0 <= k,
        start + k <= usize::MAX,
    ensures
        chain_edges(start, k).len() == k,
        forall|i: int|
            0 <= i < k ==> #[trigger] chain_edges(start, k)[i] == (PoseGraphEdge {
                from_idx: (start + i) as usize,
                to_idx: (start + i + 1) as usize,
                edge_type: EdgeType::Sequential,
            }),
    decreases k,
{
    if k > 0 {
        lemma_chain_edges_link_neighbours(start, k - 1);
    }
}

/// One loop-closure edge per keyframe pair, in the order given, each running
/// from the first keyframe of its pair to the second.
pub proof fn lemma_loop_edges_join_pairs(pairs: Seq<(usize, usize)>)
    ensures
        loop_edges(pairs).len() == pairs.len(),
        forall|i: int|
            0 <= i < pairs.len() ==> {
                &&& (#[trigger] loop_edges(pairs)[i]).from_idx == pairs[i].0
                &&& loop_edges(pairs)[i].to_idx == pairs[i].1
                &&& loop_edges(pairs)[i].edge_type == EdgeType::LoopClosure
            },
{
}

/// Keyframes and constraints of a pose graph.
#[derive(Clone, Debug)]
pub struct PoseGraph {
    /// Number of keyframes (vertices)
    pub keyframe_count: usize,
    /// Edges (constraints between poses)
    pub edges: Vec<PoseGraphEdge>,
}

impl PoseGraph {
    /// Graph over `keyframe_count` keyframes without edges.
    pub fn new(keyframe_count: usize) -> (g: Self)
        ensures
            g.keyframe_count == keyframe_count,
            g.edges@ == Seq::<PoseGraphEdge>::empty(),
    {
        PoseGraph { keyframe_count, edges: Vec::new() }
    }

    /// Appends one edge.
    pub fn add_edge(&mut self, edge: PoseGraphEdge)
        ensures
            final(self).keyframe_count == old(self).keyframe_count,
            final(self).edges@ == old(self).edges@.push(edge),
    {
        self.edges.push(edge);
    }

    /// Chains consecutive keyframes with sequential edges, one per relative
    /// pose; there must be exactly one relative pose fewer than keyframes.
    pub fn add_sequential_edges(&mut self, relative_pose_count: usize) -> (r: Result<()>)
        ensures
            final(self).keyframe_count == old(self).keyframe_count,
            relative_pose_count + 1 == old(self).keyframe_count ==> r is Ok
                && final(self).edges@ == old(self).edges@ + chain_edges(
                0,
                relative_pose_count as int,
            ),
            relative_pose_count + 1 == old(self).keyframe_count ==> {
                &&& final(self).edges@.len() == old(self).edges@.len() + relative_pose_count
                &&& forall|i: int|
                    0 <= i < relative_pose_count ==> #[trigger] final(self).edges@[old(
                        self,
                    ).edges@.len() + i] == (PoseGraphEdge {
                        from_idx: i as usize,
                        to_idx: (i + 1) as usize,
                        edge_type: EdgeType::Sequential,
                    })
            },
            relative_pose_count + 1 != old(self).keyframe_count ==> {
                &&& r is Err
                &&& r->Err_0 is InvalidObservation
                &&& r->Err_0->InvalidObservation_0@ == "Number of relative poses must be keyframes - 1"@
                &&& final(self).edges@ == old(self).edges@
            },
    {
        if relative_pose_count >= usize::MAX || relative_pose_count + 1 != self.keyframe_count {
            return Err(
                Error::InvalidObservation(owned("Number of relative poses must be keyframes - 1")),
            );
        }
        let ghost start = self.edges@;
        let mut i: usize = 0;
        while i < relative_pose_count
            invariant
                i <= relative_pose_count,
                relative_pose_count < usize::MAX,
                self.keyframe_count == old(self).keyframe_count,
                self.edges@ == start + chain_edges(0, i as int),
            decreases relative_pose_count - i,
        {
            self.add_edge(PoseGraphEdge::sequential(i, i + 1));
            i = i + 1;
        }
        proof {
            lemma_chain_edges_link_neighbours(0, relative_pose_count as int);
            assert forall|j: int| 0 <= j < relative_pose_count implies #[trigger] self.edges@[start.len()
                + j] == chain_edges(0, relative_pose_count as int)[j] by {}
        }
        Ok(())
    }

    /// Adds one loop-closure edge per detected loop, given as keyframe pairs.
    pub fn add_loop_closure_edges(&mut self, loops: &Vec<(usize, usize)>)
        ensures
            final(self).keyframe_count == old(self).keyframe_count,
            final(self).edges@ == old(self).edges@ + loop_edges(loops@),
            final(self).edges@.len() == old(self).edges@.len() + loops@.len(),
            forall|i: int|
                0 <= i < loops@.len() ==> #[trigger] final(self).edges@[old(self).edges@.len() + i]
                    == (PoseGraphEdge {
                    from_idx: loops@[i].0,
                    to_idx: loops@[i].1,
                    edge_type: EdgeType::LoopClosure,
                }),
    {
        let ghost start = self.edges@;
        let mut i: usize = 0;
        while i < loops.len()
            invariant
                i <= loops.len(),
                self.keyframe_count == old(self).keyframe_count,
                self.edges@ == start + loop_edges(loops@.take(i as int)),
            decreases loops.len() - i,
        {
            let (a, b) = loops[i];
            self.add_edge(PoseGraphEdge::loop_closure(a, b));
            assert(loop_edges(loops@.take(i as int + 1)) =~= loop_edges(loops@.take(i as int)).push(
                PoseGraphEdge { from_idx: a, to_idx: b, edge_type: EdgeType::LoopClosure },
            ));
            i = i + 1;
        }
        assert(loops@.take(loops.len() as int) =~= loops@);
        proof {
            lemma_loop_edges_join_pairs(loops@);
            assert forall|j: int| 0 <= j < loops@.len() implies #[trigger] self.edges@[start.len() + j]
                == loop_edges(loops@)[j] by {}
        }
    }

    /// Edge counts by type: (sequential, loop closure).
    pub fn edge_stats(&self) -> (r: (usize, usize))
        ensures
            r.0 == count_kind(self.edges@, EdgeType::Sequential, self.edges@.len() as int),
            r.1 == count_kind(self.edges@, EdgeType::LoopClosure, self.edges@.len() as int),
    {
        let mut sequential: usize = 0;
        let mut loop_closure: usize = 0;
        let mut i: usize = 0;
        while i < self.edges.len()
            invariant
                i <= self.edges.len(),
                sequential == count_kind(self.edges@, EdgeType::Sequential, i as int),
                loop_closure == count_kind(self.edges@, EdgeType::LoopClosure, i as int),
                sequential + loop_closure == i,
            decreases self.edges.len() - i,
        {
            match self.edges[i].edge_type {
                EdgeType::Sequential => sequential = sequential + 1,
                EdgeType::LoopClosure => loop_closure = loop_closure + 1,
            }
            i = i + 1;
        }
        (sequential, loop_closure)
    }
}

/// Every edge is either sequential or a loop closure: the two counts add
/// up to the number of edges.
pub proof fn lemma_edge_stats_total(edges: Seq<PoseGraphEdge>, n: int)
    requires
        0 <= n <= edges.len(),
    ensures
        count_kind(edges, EdgeType::Sequential, n) + count_kind(edges, EdgeType::LoopClosure, n)
            == n,
    decreases n,
{
    if n > 0 {
        lemma_edge_stats_total(edges, n - 1);
    }
}

/// Whether a real-time pose graph last optimised at `last_optimization_us`
/// is due for optimisation at `current_time_us`: strictly more than the
/// interval has passed.
pub fn should_optimize(current_time_us: i64, last_optimization_us: i64, optimization_interval_us: u64) -> (r: bool)
    requires
        i64::MIN <= current_time_us - last_optimization_us <= i64::MAX,
        optimization_interval_us <= i64::MAX,
    ensures
        r == (current_time_us - last_optimization_us > optimization_interval_us),
{
    current_time_us - last_optimization_us > optimization_interval_us as i64
}

/// Time span and sample count of an IMU pre-integration between keyframes.
#[derive(Clone, Copy, Debug, PartialEq, Eq, Structural)]
pub struct ImuWindow {
    /// Start timestamp
    pub start_time_us: i64,
    /// End timestamp (timestamp of the latest measurement)
    pub end_time_us: i64,
    /// Measurement count
    pub measurement_count: usize,
}

impl ImuWindow {
    /// Empty window opened at `start_time_us`.
    pub fn new(start_time_us: i64) -> (w: Self)
        ensures
            w == (ImuWindow { start_time_us, end_time_us: start_time_us, measurement_count: 0 }),
    {
        ImuWindow { start_time_us, end_time_us: start_time_us, measurement_count: 0 }
    }

    /// Records a measurement taken at `timestamp_us`; the window now ends there.
    pub fn record_measurement(&mut self, timestamp_us: i64)
        requires
            old(self).measurement_count < usize::MAX,
        ensures
            final(self).start_time_us == old(self).start_time_us,
            final(self).end_time_us == timestamp_us,
            final(self).measurement_count == old(self).measurement_count + 1,
    {
        self.end_time_us = timestamp_us;
        self.measurement_count = self.measurement_count + 1;
    }

    /// Integration duration.
    pub fn duration_us(&self) -> (d: i64)
        requires
            i64::MIN <= self.end_time_us - self.start_time_us <= i64::MAX,
        ensures
            d == self.end_time_us - self.start_time_us,
    {
        self.end_time_us - self.start_time_us
    }
}

} // verus!
