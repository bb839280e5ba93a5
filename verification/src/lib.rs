//! Verified core of the terrain-mapping platform: classification enums,
//! late-arrival reprocessing, provenance and audit trails, space-time
//! scheduling, spatial cell indexing, pooling, bounded event logs and
//! operation counters, persistence settings, and the combinatorial side of
//! 3D reconstruction and photogrammetry (inlier masks, pose-graph edges,
//! match lists, perceptual-hash distance).

pub mod text;
pub mod gaussian_splatting;
pub mod types;
pub mod late_arrival;
pub mod intelligence;
pub mod persistence;
pub mod sys;
pub mod security;
pub mod order;
pub mod parallel_execution;
pub mod query;
pub mod predictive_caching;
pub mod reconstruction;
pub mod reference_images;
pub mod photogrammetry;
pub mod terrain_map;
