use std::sync::Arc;

use pyterrain_map::photogrammetry::{diagonal_matches, require_image_pairs, PhotogrammetryStats, MAX_PAIR_MATCHES};
use pyterrain_map::predictive_caching::{BehavioralMode, CachePriority, DefaultIntentInferrer, Mission, TrajectoryModel};
use pyterrain_map::query::Query;
use pyterrain_map::reconstruction::{
    should_optimize, EdgeType, ImuWindow, PoseGraph, PoseGraphEdge, RansacResult,
};
use pyterrain_map::reference_images::{GeoreferenceStatus, VisualDescriptor};
use pyterrain_map::text::push_unique;
use pyterrain_map::types::Error;

#[test]
fn it_works() {
    assert_eq!(2 + 2, 4);
}

#[test]
fn test_query_set_time() {
    let query = Query::new((), (), Arc::new(()), 1_000_000);

    let query_later = query.with_time(6_000_000);
    assert_eq!(query_later.current_time_us(), 6_000_000);
}

#[test]
fn test_behavioral_mode_equality() {
    assert_eq!(BehavioralMode::Navigation, BehavioralMode::Navigation);
    assert_ne!(BehavioralMode::Navigation, BehavioralMode::Exploration);
}

#[test]
fn intent_objective_follows_the_mission() {
    let inferrer = DefaultIntentInferrer;
    assert_eq!(inferrer.primary_objective(Some("w2")), "reach waypoint: w2");
    assert_eq!(inferrer.primary_objective(None), "explore");
    assert_eq!(inferrer.immediate_action(), "move forward");
    assert_ne!(CachePriority::Critical, CachePriority::Low);
    assert_ne!(TrajectoryModel::LinearInterpolation, TrajectoryModel::EnsembleWeighted);
}

#[test]
fn test_ransac_result_get_inliers() {
    let result = RansacResult {
        inlier_mask: vec![true, false, true, false, true],
        inlier_count: 3,
        outlier_count: 2,
    };

    let inliers = result.get_inliers();
    assert_eq!(inliers.len(), 3);
    assert_eq!(inliers, vec![0, 2, 4]);
}

#[test]
fn test_ransac_result_get_outliers() {
    let result = RansacResult {
        inlier_mask: vec![true, false, true, false, true],
        inlier_count: 3,
        outlier_count: 2,
    };

    let outliers = result.get_outliers();
    assert_eq!(outliers.len(), 2);
    assert_eq!(outliers, vec![1, 3]);
}

#[test]
fn inliers_and_outliers_partition_the_matches() {
    let result = RansacResult { inlier_mask: vec![false, false, true], inlier_count: 1, outlier_count: 2 };
    let mut all = result.get_inliers();
    all.extend(result.get_outliers());
    all.sort();
    assert_eq!(all, vec![0, 1, 2]);
    let empty = RansacResult { inlier_mask: vec![], inlier_count: 0, outlier_count: 0 };
    assert!(empty.get_inliers().is_empty());
}

#[test]
fn pose_graph_edge_constructors() {
    let edge = PoseGraphEdge::sequential(0, 1);
    assert_eq!(edge.from_idx, 0);
    assert_eq!(edge.to_idx, 1);
    assert_eq!(edge.edge_type, EdgeType::Sequential);
    let lc = PoseGraphEdge::loop_closure(0, 10);
    assert_eq!(lc.from_idx, 0);
    assert_eq!(lc.to_idx, 10);
    assert_eq!(lc.edge_type, EdgeType::LoopClosure);
}

#[test]
fn test_pose_graph_add_sequential_edges() {
    let mut graph = PoseGraph::new(3);

    let result = graph.add_sequential_edges(2);

    assert!(result.is_ok());
    assert_eq!(graph.edges.len(), 2);
    assert_eq!(graph.edges[0], PoseGraphEdge::sequential(0, 1));
    assert_eq!(graph.edges[1], PoseGraphEdge::sequential(1, 2));
}

#[test]
fn test_pose_graph_add_sequential_edges_wrong_size() {
    let mut graph = PoseGraph::new(2);

    let result = graph.add_sequential_edges(2); // Too many

    assert!(result.is_err());
}

#[test]
fn sequential_edge_error_leaves_graph_unchanged() {
    let mut graph = PoseGraph::new(3);
    let result = graph.add_sequential_edges(1);
    assert!(matches!(result, Err(Error::InvalidObservation(ref m)) if m == "Number of relative poses must be keyframes - 1"));
    assert!(graph.edges.is_empty());
    assert!(PoseGraph::new(0).add_sequential_edges(0).is_err());
}

#[test]
fn test_pose_graph_add_loop_closure_edges() {
    let mut graph = PoseGraph::new(2);

    graph.add_loop_closure_edges(&vec![(0, 1)]);

    assert_eq!(graph.edges.len(), 1);
    assert_eq!(graph.edges[0].edge_type, EdgeType::LoopClosure);
}

#[test]
fn test_pose_graph_edge_stats() {
    let mut graph = PoseGraph::new(3);

    // Add 2 sequential edges
    graph.add_edge(PoseGraphEdge::sequential(0, 1));
    graph.add_edge(PoseGraphEdge::sequential(1, 2));

    // Add 1 loop closure edge
    graph.add_edge(PoseGraphEdge::loop_closure(0, 2));

    let (seq, loop_closure) = graph.edge_stats();

    assert_eq!(seq, 2);
    assert_eq!(loop_closure, 1);
}

#[test]
fn edge_stats_of_empty_graph() {
    assert_eq!(PoseGraph::new(0).edge_stats(), (0, 0));
}

#[test]
fn test_imu_preintegration_duration() {
    let mut integration = ImuWindow::new(1000);

    integration.record_measurement(3000);

    assert_eq!(integration.duration_us(), 2000);
}

#[test]
fn imu_window_tracks_latest_measurement() {
    let mut imu = ImuWindow::new(1000);
    assert_eq!(imu.duration_us(), 0);
    imu.record_measurement(1500);
    imu.record_measurement(3000);
    assert_eq!(imu.duration_us(), 2000);
    assert_eq!(imu.measurement_count, 2);
}

#[test]
fn test_realtime_pose_graph_should_optimize() {
    // A fresh real-time pose graph: last optimised at 0, one-second interval.
    assert!(should_optimize(2_000_000, 0, 1_000_000)); // 2 seconds after start
    assert!(!should_optimize(500_000, 0, 1_000_000)); // 0.5 seconds after start
}

#[test]
fn optimization_is_due_strictly_after_the_interval() {
    assert!(!should_optimize(1_000_000, 0, 1_000_000));
    assert!(should_optimize(1_000_001, 0, 1_000_000));
    assert!(!should_optimize(-5, 0, 0));
}

#[test]
fn photogrammetry_stats_from_counts() {
    let s = PhotogrammetryStats::from_counts(0, 0, 0, None, false);
    assert_eq!(s.image_count, 0);
    assert_eq!(s.triangulated_points, 0);
    assert!(!s.has_neural_rep);
    let t = PhotogrammetryStats::from_counts(3, 2, 150, Some(150), true);
    assert_eq!(t, PhotogrammetryStats {
        image_count: 3,
        matched_pairs: 2,
        triangulated_points: 150,
        point_cloud_points: 150,
        has_neural_rep: true,
    });
}

#[test]
fn processing_needs_two_images() {
    assert!(require_image_pairs(2).is_ok());
    match require_image_pairs(1) {
        Err(Error::InvalidObservation(m)) => assert_eq!(m, "Need at least 2 images"),
        other => panic!("unexpected {:?}", other),
    }
    assert!(require_image_pairs(0).is_err());
}

#[test]
fn pair_matches_are_capped_diagonal() {
    assert_eq!(diagonal_matches(3), vec![(0, 0), (1, 1), (2, 2)]);
    let many = diagonal_matches(250);
    assert_eq!(many.len(), MAX_PAIR_MATCHES);
    assert_eq!(many[99], (99, 99));
    assert!(diagonal_matches(0).is_empty());
}

#[test]
fn hamming_distance_counts_differences() {
    let a = VisualDescriptor::new("ORB", "1010");
    let b = VisualDescriptor::new("ORB", "1001");
    assert_eq!(a.hamming_distance(&b), 2);
    assert_eq!(a.hamming_distance(&a), 0);
    // only the common prefix is compared
    let c = VisualDescriptor::new("ORB", "10");
    assert_eq!(a.hamming_distance(&c), 0);
    assert_eq!(a.feature_density, vec![0, 0, 0, 0]);
    assert_eq!(a.keypoint_count, 0);
    assert_eq!(a.method, "ORB");
}

#[test]
fn hamming_distance_on_multibyte_hashes() {
    // 'é' is two bytes: three positions are compared, the third reads '0'
    let a = VisualDescriptor::new("x", "é1");
    let b = VisualDescriptor::new("x", "a1b");
    assert_eq!(a.hamming_distance(&b), 2);
}

#[test]
fn georeference_statuses_differ() {
    assert_ne!(GeoreferenceStatus::Ungeoreferenced, GeoreferenceStatus::Confirmed);
}

#[test]
fn push_unique_links_once() {
    let mut related: Vec<String> = Vec::new();
    push_unique(&mut related, "img-2");
    push_unique(&mut related, "img-3");
    push_unique(&mut related, "img-2");
    assert_eq!(related, vec!["img-2".to_string(), "img-3".to_string()]);
}

#[derive(Debug)]
struct Waypoint {
    id: String,
    location: (f64, f64),
    estimated_arrival_s: u32,
    confidence: f32,
}

#[test]
fn test_mission_remaining_waypoints() {
    let mission = Mission {
        mission_id: "m1".to_string(),
        objective: "explore".to_string(),
        waypoints: vec![
            Waypoint {
                id: "w1".to_string(),
                location: (0.0, 0.0),
                estimated_arrival_s: 10,
                confidence: 0.9,
            },
            Waypoint {
                id: "w2".to_string(),
                location: (1.0, 1.0),
                estimated_arrival_s: 20,
                confidence: 0.9,
            },
        ],
        completed_waypoints: 1,
    };

    let remaining = mission.remaining_waypoints();
    assert_eq!(remaining.len(), 1);
    assert_eq!(remaining[0].id, "w2");
    assert_eq!(remaining[0].location, (1.0, 1.0));
    assert_eq!(remaining[0].estimated_arrival_s, 20);
    assert_eq!(remaining[0].confidence, 0.9);
}

#[test]
fn finished_mission_has_no_remaining_waypoints() {
    let mission = Mission {
        mission_id: "m2".to_string(),
        objective: "deliver".to_string(),
        waypoints: vec![1u8, 2, 3],
        completed_waypoints: 3,
    };
    assert!(mission.remaining_waypoints().is_empty());
    let fresh = Mission { completed_waypoints: 0, ..mission };
    assert_eq!(fresh.remaining_waypoints(), vec![&1u8, &2, &3]);
}
