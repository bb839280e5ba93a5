use pyterrain_map::late_arrival::{LateArrivalBatch, LateArrivalProcessor};
use pyterrain_map::types::{Error, Observation, TemporalMetadata};

fn create_test_observation(event_time: i64) -> Observation {
    Observation {
        id: 0x1234_5678_9abc_4def_8123_4567_89ab_cdefu128,
        robot_id: "robot-1".to_string(),
        timestamp: event_time,
        temporal: TemporalMetadata {
            event_time_us: event_time,
            capture_time_us: event_time + 10_000,
            transmission_time_us: event_time + 100_000,
            ingestion_time_us: event_time + 500_000,
            processing_time_us: event_time + 600_000,
            precision_us: 1_000,
            estimated_latency_us: 500_000,
            is_late_arrival: false,
            jitter_us: 10_000,
        },
    }
}

#[test]
fn test_late_arrival_batch_creation() {
    let batch = LateArrivalBatch::new(5_000_000);
    assert!(batch.is_empty());
    assert_eq!(batch.len(), 0);
}

#[test]
fn test_late_arrival_batch_add() {
    let mut batch = LateArrivalBatch::new(5_000_000);
    let obs = create_test_observation(2_000_000);

    batch.add(obs);
    assert_eq!(batch.len(), 1);
}

#[test]
fn test_late_arrival_batch_latency() {
    let mut batch = LateArrivalBatch::new(5_000_000);

    // Add observations with different event times
    batch.add(create_test_observation(1_000_000)); // Latency: 4000ms
    batch.add(create_test_observation(3_000_000)); // Latency: 2000ms

    // Average latency: (4000 + 2000) / 2 = 3000ms
    assert_eq!(batch.average_latency_ms(), 3000);
}

#[test]
fn test_late_arrival_processor_creation() {
    let processor = LateArrivalProcessor::new();

    assert!(processor.get_affected_regions().is_empty());
    assert!(processor.get_affected_queries().is_empty());
}

#[test]
fn test_late_arrival_processor_mark_query() {
    let mut processor = LateArrivalProcessor::new();

    processor.mark_query_affected("query-1".to_string());
    processor.mark_query_affected("query-2".to_string());

    assert_eq!(processor.get_affected_queries().len(), 2);
}

#[test]
fn test_late_arrival_processor_clear() {
    let mut processor = LateArrivalProcessor::new();

    processor.mark_query_affected("query-1".to_string());
    assert!(!processor.get_affected_queries().is_empty());

    processor.clear_affected();
    assert!(processor.get_affected_queries().is_empty());
}

#[test]
fn test_late_arrival_processor_reprocess_cost() {
    let mut processor = LateArrivalProcessor::new();

    processor.mark_query_affected("query-1".to_string());
    processor.mark_query_affected("query-2".to_string());

    // Cost: 2 queries × 10ms/query = 20ms
    let cost = processor.estimate_reprocess_cost_ms();
    assert_eq!(cost, 20);
}

#[test]
fn late_observation_invalidates_one_cell_per_second() {
    let mut processor = LateArrivalProcessor::new();
    let obs = create_test_observation(1_000_000);
    let cells = processor.process_late_arrival(&obs, 4_500_000).unwrap();
    assert_eq!(cells, vec!["cell_0".to_string(), "cell_1".to_string(), "cell_2".to_string()]);
    let mut regions = processor.get_affected_regions();
    regions.sort();
    assert_eq!(regions, cells);
}

#[test]
fn short_latency_still_invalidates_one_cell() {
    let mut processor = LateArrivalProcessor::new();
    let obs = create_test_observation(1_000_000);
    let cells = processor.process_late_arrival(&obs, 1_000_001).unwrap();
    assert_eq!(cells, vec!["cell_0".to_string()]);
}

#[test]
fn long_latency_caps_at_ten_cells() {
    let mut processor = LateArrivalProcessor::new();
    let obs = create_test_observation(0);
    let cells = processor.process_late_arrival(&obs, 3_600_000_000).unwrap();
    assert_eq!(cells.len(), 10);
    assert_eq!(cells[9], "cell_9");
}

#[test]
fn on_time_observation_is_rejected() {
    let mut processor = LateArrivalProcessor::new();
    let obs = create_test_observation(5_000_000);
    match processor.process_late_arrival(&obs, 5_000_000) {
        Err(Error::TimeError(msg)) => {
            assert_eq!(msg, "Observation is not late (event_time >= watermark)")
        }
        other => panic!("unexpected result: {:?}", other),
    }
    assert!(processor.get_affected_regions().is_empty());
}

#[test]
fn regions_accumulate_without_duplicates() {
    let mut processor = LateArrivalProcessor::new();
    let obs = create_test_observation(0);
    processor.process_late_arrival(&obs, 2_000_000).unwrap();
    processor.process_late_arrival(&obs, 3_000_000).unwrap();
    assert_eq!(processor.get_affected_regions().len(), 3);
    processor.mark_query_affected("q".to_string());
    processor.mark_query_affected("q".to_string());
    assert_eq!(processor.get_affected_queries().len(), 1);
    assert_eq!(processor.estimate_reprocess_cost_ms(), 13);
}

#[test]
fn reprocessing_time_is_recorded() {
    let mut processor = LateArrivalProcessor::new();
    assert_eq!(processor.last_reprocess_time(), 0);
    processor.mark_reprocessing_done(42);
    assert_eq!(processor.last_reprocess_time(), 42);
}

#[test]
fn empty_batch_has_zero_average_latency() {
    let batch = LateArrivalBatch::new(5_000_000);
    assert_eq!(batch.average_latency_ms(), 0);
}

#[test]
fn batch_average_truncates_toward_zero() {
    let mut batch = LateArrivalBatch::new(5_000_000);
    batch.add(create_test_observation(4_998_500)); // 1 ms
    batch.add(create_test_observation(4_998_000)); // 2 ms
    assert_eq!(batch.average_latency_ms(), 1);
    assert_eq!(batch.event_times, vec![4_998_500, 4_998_000]);
}
