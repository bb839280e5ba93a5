//! Keys of the splat store's spatial index.

use vstd::prelude::*;

verus! {

/// Spatial index key: cell index and a 2 m elevation tier.
#[derive(Clone, Copy, Debug, PartialEq, Eq, Hash, Structural)]
pub struct H3SplatKey {
    pub h3_index: u64,
    /// floor(elevation_m / 2.0) for 2 m vertical resolution
    pub elevation_tier: i32,
}

/// Cell index of scaled coordinates: the low 20 bits of the scaled
/// latitude in bits 32 and up, the low 20 bits of the scaled longitude in
/// the low bits.
pub open spec fn splat_cell(lat_idx: i64, lon_idx: i64) -> u64 {
    (((lat_idx & 0xFFFFF) as u64) << 32u64) | ((lon_idx & 0xFFFFF) as u64)
}

impl H3SplatKey {
    /// Key of scaled coordinates (thousandths of a degree) and an elevation
    /// tier.
    pub fn from_scaled(lat_idx: i64, lon_idx: i64, elevation_tier: i32) -> (k: Self)
        ensures
            k.h3_index == splat_cell(lat_idx, lon_idx),
            k.elevation_tier == elevation_tier,
    {
        let lat = (lat_idx & 0xFFFFF) as u64;
        let lon = (lon_idx & 0xFFFFF) as u64;
        H3SplatKey { h3_index: (lat << 32u64) | lon, elevation_tier }
    }
}

} // verus!
