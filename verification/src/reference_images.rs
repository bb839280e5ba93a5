//! Reference images without coordinates: their georeferencing status and
//! perceptual-hash comparison.

use vstd::prelude::*;
use crate::text::owned;

verus! {

/// Georeference status of a reference image.
#[derive(Clone, Copy, Debug, PartialEq, Eq, Structural)]
pub enum GeoreferenceStatus {
    /// Image location unknown, waiting for matching
    Ungeoreferenced,
    /// Location predicted from matching, low confidence
    PredictedLow,
    /// Location predicted from matching, medium confidence
    PredictedMedium,
    /// Location confirmed by robot visit
    Confirmed,
    /// Location refined by multiple matches
    Refined,
}

/// Visual descriptor for image matching, reduced to its integer and text
/// parts (the floating-point descriptor vector is kept by the caller).
#[derive(Clone, Debug)]
pub struct VisualDescriptor {
    /// Feature detection method (SIFT, SURF, ORB, etc.)
    pub method: String,
    /// Number of keypoints detected
    pub keypoint_count: u32,
    /// Hash/fingerprint for quick similarity (perceptual hash)
    pub perceptual_hash: String,
    /// Feature count per quadrant: top-left, top-right, bottom-left, bottom-right
    pub feature_density: Vec<u8>,
}

/// The `i`-th character of `s`, or `'0'` past its end.
pub open spec fn char_or_zero(s: Seq<char>, i: int) -> char {
    if 0 <= i < s.len() {
        s[i]
    } else {
        '0'
    }
}

/// Number of positions below `n` at which `a` and `b` differ, reading
/// `'0'` past the end of either.
pub open spec fn mismatch_count(a: Seq<char>, b: Seq<char>, n: int) -> nat
    decreases n,
{
    if n <= 0 {
        0
    } else {
        mismatch_count(a, b, n - 1) + if char_or_zero(a, n - 1) != char_or_zero(b, n - 1) {
            1nat
        } else {
            0nat
        }
    }
}

/// The number of positions compared: the smaller of the two hashes'
/// lengths in bytes (UTF-8).
pub open spec fn compared_len(a: Seq<char>, b: Seq<char>) -> int {
    let la = vstd::utf8::encode_utf8(a).len() as int;
    let lb = vstd::utf8::encode_utf8(b).len() as int;
    if la <= lb {
        la
    } else {
        lb
    }
}

/// Past the end of both hashes every position reads `'0'` on both sides,
/// so the count never exceeds the longer hash's length in characters.
proof fn lemma_mismatch_count_bounded(a: Seq<char>, b: Seq<char>, n: int)
    requires
        0 <= n,
    ensures
        mismatch_count(a, b, n) <= n,
        mismatch_count(a, b, n) <= if a.len() >= b.len() {
            a.len()
        } else {
            b.len()
        },
    decreases n,
{
    if n > 0 {
        lemma_mismatch_count_bounded(a, b, n - 1);
    }
}

impl VisualDescriptor {
    /// Descriptor with the given method and perceptual hash, no keypoints
    /// and an empty density grid of four quadrants.
    pub fn new(method: &str, perceptual_hash: &str) -> (d: Self)
        ensures
            d.method@ == method@,
            d.keypoint_count == 0,
            d.perceptual_hash@ == perceptual_hash@,
            d.feature_density@ == seq![0u8, 0u8, 0u8, 0u8],
    {
        VisualDescriptor {
            method: owned(method),
            keypoint_count: 0,
            perceptual_hash: owned(perceptual_hash),
            feature_density: vec![0, 0, 0, 0],
        }
    }

    /// Hamming distance between the perceptual hashes (quick similarity check).
    pub fn hamming_distance(&self, other: &VisualDescriptor) -> (d: u32)
        requires
            self.perceptual_hash@.len() <= u32::MAX,
            other.perceptual_hash@.len() <= u32::MAX,
        ensures
            d == mismatch_count(
                self.perceptual_hash@,
                other.perceptual_hash@,
                compared_len(self.perceptual_hash@, other.perceptual_hash@),
            ),
    {
        let a = self.perceptual_hash.as_str();
        let b = other.perceptual_hash.as_str();
        let la = a.as_bytes().len();
        let lb = b.as_bytes().len();
        let max_len = if la <= lb {
            la
        } else {
            lb
        };
        let na = a.unicode_len();
        let nb = b.unicode_len();
        let mut distance: u32 = 0;
        let mut i: usize = 0;
        while i < max_len
            invariant
                i <= max_len,
                max_len == compared_len(a@, b@),
                a@.len() <= u32::MAX,
                b@.len() <= u32::MAX,
                na == a@.len(),
                nb == b@.len(),
                distance == mismatch_count(a@, b@, i as int),
            decreases max_len - i,
        {
            let ca = if i < na {
                a.get_char(i)
            } else {
                '0'
            };
            let cb = if i < nb {
                b.get_char(i)
            } else {
                '0'
            };
            proof {
                lemma_mismatch_count_bounded(a@, b@, i as int);
            }
            if ca != cb {
                distance = distance + 1;
            }
            i = i + 1;
        }
        distance
    }
}

} // verus!
