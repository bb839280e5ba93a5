//! Counting side of the photogrammetry pipeline: statistics, the image
//! count it needs to start, and the match list built for an image pair.

use vstd::prelude::*;
use crate::types::{Error, Result};
use crate::text::owned;

verus! {

/// Photogrammetry statistics.
#[derive(Clone, Copy, Debug, PartialEq, Eq, Structural)]
pub struct PhotogrammetryStats {
    pub image_count: u32,
    pub matched_pairs: u32,
    pub triangulated_points: u32,
    pub point_cloud_points: u32,
    pub has_neural_rep: bool,
}

impl PhotogrammetryStats {
    /// Statistics of a processor from its collection sizes; each count is
    /// reported as a `u32`, keeping its low 32 bits. A processor without a
    /// dense point cloud reports zero cloud points.
    pub fn from_counts(
        image_count: usize,
        matched_pairs: usize,
        triangulated_points: usize,
        point_cloud_points: Option<usize>,
        has_neural_rep: bool,
    ) -> (s: Self)
        ensures
            s.image_count == image_count as u32,
            s.matched_pairs == matched_pairs as u32,
            s.triangulated_points == triangulated_points as u32,
            s.point_cloud_points == (match point_cloud_points {
                Some(n) => n,
                None => 0usize,
            }) as u32,
            s.has_neural_rep == has_neural_rep,
    {
        let cloud: usize = match point_cloud_points {
            Some(n) => n,
            None => 0,
        };
        PhotogrammetryStats {
            image_count: #[verifier::truncate] (image_count as u32),
            matched_pairs: #[verifier::truncate] (matched_pairs as u32),
            triangulated_points: #[verifier::truncate] (triangulated_points as u32),
            point_cloud_points: #[verifier::truncate] (cloud as u32),
            has_neural_rep,
        }
    }
}

/// Processing needs at least two images to form a pair.
pub fn require_image_pairs(image_count: usize) -> (r: Result<()>)
    ensures
        image_count >= 2 ==> r is Ok,
        image_count < 2 ==> {
            &&& r is Err
            &&& r->Err_0 is InvalidObservation
            &&& r->Err_0->InvalidObservation_0@ == "Need at least 2 images"@
        },
{
    if image_count < 2 {
        Err(Error::InvalidObservation(owned("Need at least 2 images")))
    } else {
        Ok(())
    }
}

/// Largest number of matches kept for one image pair.
pub const MAX_PAIR_MATCHES: usize = 100;

/// The feature matches recorded for an image pair with `match_count`
/// estimated matches: feature `i` of one image to feature `i` of the other,
/// for the first `min(match_count, 100)` features.
pub fn diagonal_matches(match_count: usize) -> (r: Vec<(usize, usize)>)
    ensures
        r@.len() == if match_count < MAX_PAIR_MATCHES {
            match_count
        } else {
            MAX_PAIR_MATCHES
        },
        forall|i: int| 0 <= i < r@.len() ==> #[trigger] r@[i] == (i as usize, i as usize),
{
    let mut matches: Vec<(usize, usize)> = Vec::new();
    let mut i: usize = 0;
    while i < match_count
        invariant
            i <= match_count,
            matches@.len() == if i < MAX_PAIR_MATCHES {
                i
            } else {
                MAX_PAIR_MATCHES
            },
            forall|k: int| 0 <= k < matches@.len() ==> #[trigger] matches@[k] == (k as usize, k as usize),
        decreases match_count - i,
    {
        if i < MAX_PAIR_MATCHES {
            matches.push((i, i));
        }
        i = i + 1;
    }
    matches
}

} // verus!
