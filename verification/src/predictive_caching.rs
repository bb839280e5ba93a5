//! Vocabulary of predictive layered caching: behavioural modes, cache
//! priorities, trajectory models, mission progress and the default intent
//! inferrer's choice of objective.

use vstd::prelude::*;

verus! {

/// Behavioral mode of an agent.
#[derive(Clone, Copy, Debug, PartialEq, Eq, Hash, Structural)]
pub enum BehavioralMode {
    Navigation,
    Exploration,
    Emergency,
    Observation,
    Idle,
}

/// Priority level for cache warming.
#[derive(Clone, Copy, Debug, PartialEq, Eq, Structural)]
pub enum CachePriority {
    /// More than 80% probability
    Critical,
    /// 50-80% probability
    High,
    /// 20-50% probability
    Medium,
    /// Less than 20% probability
    Low,
}

/// Trajectory model used by the predictor.
#[derive(Clone, Copy, Debug, PartialEq, Eq, Structural)]
pub enum TrajectoryModel {
    LinearInterpolation,
    BehaviorBased,
    MissionAware,
    EnsembleWeighted,
}

/// Mission objective: an ordered list of waypoints, of which the first
/// `completed_waypoints` are done. The waypoint type is a parameter; the
/// mission logic only orders and counts them.
#[derive(Clone, Debug)]
pub struct Mission<W> {
    pub mission_id: String,
    pub objective: String,
    pub waypoints: Vec<W>,
    pub completed_waypoints: usize,
}

impl<W> Mission<W> {
    /// The waypoints still ahead, in mission order.
    pub fn remaining_waypoints(&self) -> (r: Vec<&W>)
        requires
            self.completed_waypoints <= self.waypoints@.len(),
        ensures
            r@.len() == self.waypoints@.len() - self.completed_waypoints,
            forall|i: int|
                0 <= i < r@.len() ==> *#[trigger] r@[i] == self.waypoints@[self.completed_waypoints + i],
    {
        let mut r: Vec<&W> = Vec::new();
        let mut i = self.completed_waypoints;
        while i < self.waypoints.len()
            invariant
                self.completed_waypoints <= i <= self.waypoints@.len(),
                r@.len() == i - self.completed_waypoints,
                forall|k: int|
                    0 <= k < r@.len() ==> *#[trigger] r@[k] == self.waypoints@[self.completed_waypoints + k],
            decreases self.waypoints.len() - i,
        {
            r.push(&self.waypoints[i]);
            i = i + 1;
        }
        r
    }
}

/// The intent inferrer used when nothing more specific is configured.
#[derive(Clone, Copy, Debug)]
pub struct DefaultIntentInferrer;

/// The objective an agent pursues: the next unfinished waypoint of its
/// mission when there is one, free exploration otherwise.
pub open spec fn objective_text(next_waypoint_id: Option<Seq<char>>) -> Seq<char> {
    match next_waypoint_id {
        Some(id) => "reach waypoint: "@ + id,
        None => "explore"@,
    }
}

/// The immediate action the default inferrer always reports.
pub open spec fn default_action() -> Seq<char> {
    "move forward"@
}

impl DefaultIntentInferrer {
    /// Primary objective, given the id of the first remaining waypoint of
    /// the agent's mission (`None` when it has no mission or has finished it).
    pub fn primary_objective(&self, next_waypoint_id: Option<&str>) -> (s: String)
        ensures
            s@ == objective_text(
                match next_waypoint_id {
                    Some(id) => Some(id@),
                    None => None,
                },
            ),
    {
        match next_waypoint_id {
            Some(id) => {
                let prefix = String::from_str("reach waypoint: ");
                prefix.concat(id)
            },
            None => String::from_str("explore"),
        }
    }

    /// The immediate action reported alongside the objective.
    pub fn immediate_action(&self) -> (s: String)
        ensures
            s@ == default_action(),
    {
        String::from_str("move forward")
    }
}

} // verus!
