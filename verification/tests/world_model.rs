use pyterrain_map::gaussian_splatting::fusion::{FusionAction, MultiSplatSynchronizer, SyncResult};
use pyterrain_map::gaussian_splatting::h3_optimization::{
    h3_cell_id, H3Resolution, H3SpatialIndex, COARSE_LEVEL, FINE_LEVEL, MEDIUM_LEVEL,
};
use pyterrain_map::gaussian_splatting::memory_pool::{MemoryPoolStats, ObjectPool, PoolConfig, PoolStats};
use pyterrain_map::gaussian_splatting::objects::{ObjectClass, ObjectMobility};
use pyterrain_map::gaussian_splatting::observability::{push_bounded, BoundedLog, GaussianMetrics, ObsContext, ObsEvent};
use pyterrain_map::gaussian_splatting::passage::{
    open_closed_counts, success_count, trim_history, PassageTraversal, PassageType, DAY_US, MAX_TRAVERSALS,
};
use pyterrain_map::gaussian_splatting::store::H3SplatKey;
use pyterrain_map::gaussian_splatting::terrain::{SplatKind, TerrainType};

/// Cells of a point given in thousandths of a degree offset from the
/// south pole and the antimeridian.
fn cells(lat_bits: u64, lon_bits: u64) -> (u64, u64, u64) {
    (
        h3_cell_id(lat_bits, lon_bits, COARSE_LEVEL),
        h3_cell_id(lat_bits, lon_bits, MEDIUM_LEVEL),
        h3_cell_id(lat_bits, lon_bits, FINE_LEVEL),
    )
}

#[test]
fn test_terrain_type_str() {
    assert_eq!(TerrainType::Road.as_str(), "Road");
    assert_eq!(TerrainType::Grass.as_str(), "Grass");
    assert_eq!(TerrainType::Unknown(0).as_str(), "Unknown");
}

#[test]
fn test_terrain_type_from_str() {
    assert_eq!(TerrainType::from_str("Road"), TerrainType::Road);
    assert_eq!(TerrainType::from_str("Grass"), TerrainType::Grass);
    assert!(matches!(TerrainType::from_str("invalid"), TerrainType::Unknown(_)));
}

#[test]
fn terrain_names_round_trip() {
    let all = [
        TerrainType::Road,
        TerrainType::Grass,
        TerrainType::Mud,
        TerrainType::Water,
        TerrainType::Sand,
        TerrainType::Corridor,
        TerrainType::Stairs,
        TerrainType::Obstacle,
        TerrainType::ChargingStation,
        TerrainType::RestrictedArea,
    ];
    for t in all {
        assert_eq!(TerrainType::from_str(t.as_str()), t);
    }
    assert_eq!(TerrainType::from_str("road"), TerrainType::Unknown(0));
    assert_ne!(SplatKind::Terrain, SplatKind::Passage);
}

#[test]
fn test_index_creation() {
    let index = H3SpatialIndex::new();
    assert_eq!(index.total_indexed, 0);
}

#[test]
fn indexed_splats_are_found_in_their_cells() {
    let mut index = H3SpatialIndex::new();
    for i in 0..100 {
        let (c, m, f) = cells(130_000 + i as u64, 106_000);
        index.index_splat_cells(&format!("splat_{}", i), c, m, f);
    }
    assert_eq!(index.total_indexed, 100);
    assert!(index.coarse_cells > 0);
    assert!(index.medium_cells > 0);
    assert_eq!(index.fine_cells, 100);

    let (c, _, f) = cells(130_000, 106_000);
    let fine = index.candidates_in_cell(H3Resolution(FINE_LEVEL), f);
    assert_eq!(fine, vec!["splat_0".to_string()]);
    let coarse = index.candidates_in_cell(H3Resolution(COARSE_LEVEL), c);
    assert_eq!(coarse, vec!["splat_0".to_string()]);
    assert!(index.candidates_in_cell(H3Resolution(FINE_LEVEL), 12345).is_empty());
}

#[test]
fn index_clear_resets_everything() {
    let mut index = H3SpatialIndex::default();
    for i in 0..100 {
        let (c, m, f) = cells(130_000, 106_000);
        index.index_splat_cells(&format!("splat_{}", i), c, m, f);
    }
    assert_eq!(index.total_indexed, 100);
    assert_eq!(index.fine_cells, 1);
    let (_, m, _) = cells(130_000, 106_000);
    assert_eq!(index.candidates_in_cell(H3Resolution(MEDIUM_LEVEL), m).len(), 100);

    index.clear();
    assert_eq!(index.total_indexed, 0);
    assert_eq!(index.coarse_cells, 0);
    assert!(index.candidates_in_cell(H3Resolution(MEDIUM_LEVEL), m).is_empty());
}

#[test]
fn cell_id_layout() {
    assert_eq!(h3_cell_id(1, 2, 7), (7u64 << 56) | (1u64 << 32) | 2);
    let key = H3SplatKey::from_scaled(130_710, 106_000, 3);
    assert_eq!(key.h3_index, (130_710u64 << 32) | 106_000);
    assert_eq!(key.elevation_tier, 3);
    let wrapped = H3SplatKey::from_scaled(-1, 0x1_00001, -2);
    assert_eq!(wrapped.h3_index, (0xFFFFFu64 << 32) | 1);
}

#[test]
fn test_object_class_str() {
    assert_eq!(ObjectClass::Pallet.as_str(), "Pallet");
    assert_eq!(ObjectClass::Person.as_str(), "Person");
}

#[test]
fn test_object_class_from_str() {
    assert_eq!(ObjectClass::from_str("Pallet"), ObjectClass::Pallet);
    assert_eq!(ObjectClass::from_str("Person"), ObjectClass::Person);
}

#[test]
fn unknown_object_names_parse_as_unknown() {
    assert_eq!(ObjectClass::from_str("Robot"), ObjectClass::Unknown);
    assert_eq!(ObjectClass::from_str(ObjectClass::Forklift.as_str()), ObjectClass::Forklift);
}

#[test]
fn test_object_mobility_decay_half_life() {
    assert!(ObjectMobility::Dynamic.decay_half_life_ms() < ObjectMobility::Mobile.decay_half_life_ms());
    assert!(ObjectMobility::Mobile.decay_half_life_ms() < ObjectMobility::Movable.decay_half_life_ms());
    assert!(ObjectMobility::Movable.decay_half_life_ms() < ObjectMobility::Fixed.decay_half_life_ms());
}

#[test]
fn mobility_half_lives_and_classes() {
    assert_eq!(ObjectMobility::Dynamic.decay_half_life_ms(), 1_800_000);
    assert_eq!(ObjectMobility::Fixed.decay_half_life_ms(), 7_776_000_000);
    assert_eq!(ObjectMobility::for_class(ObjectClass::Person), ObjectMobility::Dynamic);
    assert_eq!(ObjectMobility::for_class(ObjectClass::Shelf), ObjectMobility::Fixed);
    assert_eq!(ObjectMobility::for_class(ObjectClass::Cart), ObjectMobility::Mobile);
    assert_eq!(ObjectMobility::for_class(ObjectClass::Unknown), ObjectMobility::Movable);
}

#[test]
fn test_obs_context_creation() {
    let ctx = ObsContext::new("fusion", Some("bot_01".to_string()));
    assert_eq!(ctx.operation, "fusion");
    assert_eq!(ctx.bot_id, Some("bot_01".to_string()));
    assert!(!ctx.trace_id.is_empty());
    assert!(!ctx.span_id.is_empty());
}

#[test]
fn obs_event_copies_context() {
    let ctx = ObsContext::new("query", None);
    assert_eq!(ctx.trace_id.len(), 36);
    assert_ne!(ctx.trace_id, ctx.span_id);
    let ev = ObsEvent::new(&ctx, "info", "hello");
    assert_eq!(ev.trace_id, ctx.trace_id);
    assert_eq!(ev.operation, "query");
    assert_eq!(ev.level, "info");
    assert_eq!(ev.message, "hello");
    assert!(ev.details.is_empty());
    let copy = ctx.clone();
    assert_eq!(copy.span_id, ctx.span_id);
}

#[test]
fn metrics_counters_record() {
    let mut metrics = GaussianMetrics::default();
    metrics.record_observation();
    assert_eq!(metrics.observations_ingested, 1);
    metrics.record_fusion(100);
    assert_eq!(metrics.fusions_successful, 1);
    metrics.record_fusion(200);
    metrics.record_fusion(50);
    assert_eq!(metrics.fusions_successful, 3);
    assert_eq!(metrics.fusion_latency_us_max, 200);
    metrics.record_new_splat();
    assert_eq!(metrics.fusions_failed, 1);
    metrics.record_decay(10, 4);
    metrics.record_decay(10, 3);
    assert_eq!(metrics.decay_operations, 2);
    assert_eq!(metrics.splats_pruned, 7);
    metrics.record_query(30, 10);
    assert_eq!(metrics.queries_radius, 1);
}

#[test]
fn change_events_are_counted_by_kind() {
    let mut metrics = GaussianMetrics::default();
    metrics.record_change_event("object_moved");
    metrics.record_change_event("object_appeared");
    metrics.record_change_event("object_moved");
    metrics.record_change_event("path_blocked");
    metrics.record_change_event("object_disappeared");
    assert_eq!(metrics.change_events, 5);
    assert_eq!(metrics.events_object_moved, 2);
    assert_eq!(metrics.events_object_appeared, 1);
    assert_eq!(metrics.events_object_disappeared, 1);
}

#[test]
fn bounded_log_keeps_most_recent() {
    let mut log: BoundedLog<u32> = BoundedLog::new(5);
    assert!(log.is_empty());
    for i in 0..10 {
        log.record(i);
    }
    assert_eq!(log.len(), 5);
    let latest: Vec<u32> = log.latest_first(100).into_iter().copied().collect();
    assert_eq!(latest, vec![9, 8, 7, 6, 5]);
    let recent: Vec<u32> = log.recent(2).into_iter().copied().collect();
    assert_eq!(recent, vec![8, 9]);
    log.clear();
    assert_eq!(log.len(), 0);
}

#[test]
fn bounded_log_of_zero_keeps_nothing() {
    let mut log: BoundedLog<&str> = BoundedLog::new(0);
    log.record("a");
    assert!(log.is_empty());
}

#[test]
fn pool_reuses_returned_objects() {
    let mut pool: ObjectPool<u64> = ObjectPool::new(2, true);
    assert_eq!(pool.allocate(), None);
    assert!(pool.deallocate(1));
    assert!(pool.deallocate(2));
    assert!(!pool.deallocate(3)); // over the maximum: dropped
    assert_eq!(pool.len(), 2);
    assert_eq!(pool.allocate(), Some(2));
    let s = pool.stats();
    assert_eq!(s.cache_hits, 1);
    assert_eq!(s.cache_misses, 1);
    assert_eq!(s.deallocations, 2);
    assert_eq!(s.max_pool_size, 2);
    assert_eq!(s.pool_size, 2);
    pool.clear();
    assert_eq!(pool.len(), 0);
}

#[test]
fn pool_without_tracking_keeps_zero_stats() {
    let mut pool: ObjectPool<u8> = ObjectPool::new(4, false);
    pool.allocate();
    pool.deallocate(1);
    assert_eq!(pool.stats(), PoolStats::default());
}

#[test]
fn pool_config_defaults() {
    let c = PoolConfig::default();
    assert_eq!(c.splat_pool_size, 100);
    assert_eq!(c.splat_pool_max, 10000);
    assert_eq!(c.observation_pool_size, 1000);
    assert_eq!(c.observation_pool_max, 100000);
    assert!(c.track_stats);
    let s = MemoryPoolStats { splat_stats: PoolStats::default(), observation_stats: PoolStats::default() };
    assert_eq!(s.splat_stats.allocations, 0);
}

fn traversal(timestamp: i64, success: bool, was_open: bool) -> PassageTraversal {
    PassageTraversal { timestamp, robot_id: "bot".to_string(), success, was_open }
}

#[test]
fn passage_counts_weight_recent_traversals() {
    let now = 10 * DAY_US;
    let history = vec![
        traversal(now - 1, true, true),            // recent, open: 2
        traversal(now - 2 * DAY_US, false, false), // old, closed: 1
        traversal(now - DAY_US, true, true),       // exactly a day: 1
    ];
    assert_eq!(open_closed_counts(&history, now), (3, 1));
    assert_eq!(success_count(&history), 2);
    assert_eq!(open_closed_counts(&Vec::new(), now), (0, 0));
    assert_ne!(PassageType::Door, PassageType::Gate);
}

#[test]
fn passage_history_is_trimmed() {
    let mut history: Vec<PassageTraversal> = (0..=MAX_TRAVERSALS as i64).map(|t| traversal(t, true, true)).collect();
    trim_history(&mut history);
    assert_eq!(history.len(), MAX_TRAVERSALS);
    assert_eq!(history[0].timestamp, 1);
    trim_history(&mut history);
    assert_eq!(history.len(), MAX_TRAVERSALS);
}

#[test]
fn synchronizer_tallies_outcomes() {
    let actions = vec![
        FusionAction::Created,
        FusionAction::Fused { with_splat_id: 9 },
        FusionAction::Rejected { reason: "conflict".to_string() },
        FusionAction::Fused { with_splat_id: 3 },
    ];
    let r = MultiSplatSynchronizer::summarize(&actions);
    assert_eq!(r, SyncResult { fused: 2, created: 1, conflicts: 1 });
    assert_eq!(MultiSplatSynchronizer::summarize(&Vec::new()), SyncResult { fused: 0, created: 0, conflicts: 0 });
}

#[test]
fn bounded_history_drops_oldest() {
    let mut history = vec![1, 2, 3];
    push_bounded(&mut history, 4, 3);
    assert_eq!(history, vec![2, 3, 4]);
    push_bounded(&mut history, 5, 10);
    assert_eq!(history, vec![2, 3, 4, 5]);
    let mut empty: Vec<u8> = Vec::new();
    push_bounded(&mut empty, 1, 0);
    assert!(empty.is_empty());
}
