use pyterrain_map::parallel_execution::{
    AgentId, GPUDeviceId, GPUResources, LateArrivalTask, RegionId, SchedulerMetrics, SpaceTimeScheduler,
    TimeWindow, WorkPacket, WorkPriority, WorkType, ExecutionMetadata,
};

fn packet(id: u128, region: Option<RegionId>) -> WorkPacket {
    WorkPacket {
        id,
        target_gpu: None,
        region,
        time_window: None,
        agent: None,
        work_type: WorkType::SpatialQuery,
        priority: WorkPriority::Normal,
        created_at_us: 0,
    }
}

fn gpu(id: u32, available_memory: u64, healthy: bool) -> GPUResources {
    GPUResources {
        device_id: GPUDeviceId(id),
        compute_capacity: 100,
        total_memory: 24 * 1024 * 1024 * 1024,
        available_memory,
        utilization_bits: 0.2f32.to_bits(),
        is_healthy: healthy,
    }
}

#[test]
fn test_time_window_contains() {
    let window = TimeWindow::new(1000, 2000);
    assert!(window.contains(1500));
    assert!(!window.contains(500));
    assert!(!window.contains(2000)); // Exclusive end
}

#[test]
fn time_window_duration_and_start() {
    let window = TimeWindow::new(1000, 2500);
    assert_eq!(window.duration_us(), 1500);
    assert!(window.contains(1000));
    assert!(!window.contains(999));
}

#[test]
fn test_scheduler_creation() {
    let mut scheduler = SpaceTimeScheduler::new();
    let gpu = GPUResources {
        device_id: GPUDeviceId(0),
        compute_capacity: 100,
        total_memory: 24 * 1024 * 1024 * 1024,     // 24GB
        available_memory: 20 * 1024 * 1024 * 1024, // 20GB
        utilization_bits: 0.2f32.to_bits(),
        is_healthy: true,
    };
    scheduler.register_gpu(gpu.clone());

    let available = scheduler.available_gpus(1024);
    assert_eq!(available.len(), 1);
    assert_eq!(available[0].device_id, GPUDeviceId(0));
}

#[test]
fn test_watermark_tracking() {
    let mut scheduler = SpaceTimeScheduler::new();
    scheduler.advance_watermark("stream-0".to_string(), 5000);

    assert_eq!(scheduler.watermark("stream-0").unwrap().max_event_time_us, 5000);
}

#[test]
fn watermark_advance_replaces_and_isolates_streams() {
    let mut scheduler = SpaceTimeScheduler::new();
    assert!(scheduler.watermark("a").is_none());
    scheduler.advance_watermark("a".to_string(), 10);
    scheduler.advance_watermark("b".to_string(), 20);
    scheduler.advance_watermark("a".to_string(), 30);
    assert_eq!(scheduler.watermark("a").unwrap().max_event_time_us, 30);
    assert_eq!(scheduler.watermark("b").unwrap().max_event_time_us, 20);
    assert!(scheduler.watermark("c").is_none());
}

#[test]
fn test_late_arrival_queue() {
    let mut scheduler = SpaceTimeScheduler::new();
    let task = LateArrivalTask {
        obs_id: 7,
        event_time_us: 1000,
        ingestion_time_us: 2000,
        affected_regions: vec![],
        affected_time_windows: vec![],
        priority: WorkPriority::LateArrivalCorrection,
    };

    scheduler.handle_late_arrival(task);
    assert_eq!(scheduler.metrics().late_arrivals_handled, 1);
}

#[test]
fn test_work_submission() {
    let mut scheduler = SpaceTimeScheduler::new();
    let packet = WorkPacket {
        id: 1,
        target_gpu: None,
        region: None,
        time_window: None,
        agent: None,
        work_type: WorkType::SpatialQuery,
        priority: WorkPriority::Normal,
        created_at_us: 0,
    };

    scheduler.submit_work(packet);
    let metrics = scheduler.metrics();
    assert_eq!(metrics.completed_work_packets, 0); // Not completed yet
}

#[test]
fn test_gpu_memory_filter() {
    let mut scheduler = SpaceTimeScheduler::new();
    let gpu1 = GPUResources {
        device_id: GPUDeviceId(0),
        compute_capacity: 100,
        total_memory: 24 * 1024 * 1024 * 1024,
        available_memory: 20 * 1024 * 1024 * 1024, // 20GB
        utilization_bits: 0.2f32.to_bits(),
        is_healthy: true,
    };
    let gpu2 = GPUResources {
        device_id: GPUDeviceId(1),
        compute_capacity: 50,
        total_memory: 8 * 1024 * 1024 * 1024,
        available_memory: 1024 * 1024, // 1MB
        utilization_bits: 0.9f32.to_bits(),
        is_healthy: true,
    };

    scheduler.register_gpu(gpu1);
    scheduler.register_gpu(gpu2);

    // Request 10GB
    let available = scheduler.available_gpus(10 * 1024 * 1024 * 1024);
    assert_eq!(available.len(), 1);
    assert_eq!(available[0].device_id, GPUDeviceId(0));
}

#[test]
fn unhealthy_gpu_is_never_available() {
    let mut scheduler = SpaceTimeScheduler::new();
    scheduler.register_gpu(gpu(3, u64::MAX, false));
    scheduler.register_gpu(gpu(4, 2048, true));
    let available = scheduler.available_gpus(1024);
    assert_eq!(available.len(), 1);
    assert_eq!(available[0].device_id, GPUDeviceId(4));
    assert!(scheduler.available_gpus(4096).is_empty());
}

#[test]
fn batch_takes_one_front_packet_per_partition() {
    let mut scheduler = SpaceTimeScheduler::new();
    let r1 = Some(RegionId { h3_cell: 1, resolution: 7 });
    let r2 = Some(RegionId { h3_cell: 2, resolution: 7 });
    scheduler.submit_work(packet(1, r1));
    scheduler.submit_work(packet(2, r1));
    scheduler.submit_work(packet(3, r2));

    let first = scheduler.schedule_next_batch(GPUDeviceId(0));
    let mut ids: Vec<u128> = first.iter().map(|p| p.id).collect();
    ids.sort();
    assert_eq!(ids, vec![1, 3]);

    let second = scheduler.schedule_next_batch(GPUDeviceId(0));
    assert_eq!(second.len(), 1);
    assert_eq!(second[0].id, 2);

    assert!(scheduler.schedule_next_batch(GPUDeviceId(0)).is_empty());
}

#[test]
fn batch_is_capped_at_thirty_two_packets() {
    let mut scheduler = SpaceTimeScheduler::new();
    for i in 0..40u64 {
        scheduler.submit_work(packet(i as u128, Some(RegionId { h3_cell: i, resolution: 9 })));
    }
    assert_eq!(scheduler.schedule_next_batch(GPUDeviceId(1)).len(), 32);
    assert_eq!(scheduler.schedule_next_batch(GPUDeviceId(1)).len(), 8);
    assert_eq!(scheduler.schedule_next_batch(GPUDeviceId(1)).len(), 0);
}

#[test]
fn pending_late_arrivals_take_precedence() {
    let mut scheduler = SpaceTimeScheduler::new();
    scheduler.submit_work(packet(1, None));
    for i in 0..12 {
        scheduler.handle_late_arrival(LateArrivalTask {
            obs_id: i,
            event_time_us: 0,
            ingestion_time_us: 1,
            affected_regions: vec![],
            affected_time_windows: vec![TimeWindow::new(0, 10)],
            priority: WorkPriority::LateArrivalCorrection,
        });
    }
    let batch = scheduler.schedule_next_batch(GPUDeviceId(5));
    assert_eq!(batch.len(), 10);
    for p in &batch {
        assert_eq!(p.target_gpu, Some(GPUDeviceId(5)));
        assert_eq!(p.priority, WorkPriority::LateArrivalCorrection);
        assert!(matches!(p.work_type, WorkType::TemporalQuery));
        assert_eq!(p.created_at_us, 0);
        assert_eq!((p.id >> 76) & 0xf, 4);
    }
    assert_eq!(scheduler.metrics().late_arrivals_handled, 12);
}

#[test]
fn completion_and_failure_are_counted() {
    let mut scheduler = SpaceTimeScheduler::new();
    scheduler.mark_completed(1);
    scheduler.mark_completed(2);
    scheduler.mark_failed(3);
    let m = scheduler.metrics();
    assert_eq!(m.completed_work_packets, 2);
    assert_eq!(m.failed_work_packets, 1);
    assert_eq!(m.total_work_packets, 0);
}

#[test]
fn default_metrics_and_metadata_are_zero() {
    let m = SchedulerMetrics::default();
    assert_eq!(m.late_arrivals_handled, 0);
    assert_eq!(m.temporal_corrections_applied, 0);
    let md = ExecutionMetadata::default();
    assert!(md.processing_gpu.is_none());
    assert!(md.agent_id.is_none());
    assert_eq!(md.reprocess_count, 0);
    let _agent = AgentId("agent-1".to_string());
}

#[test]
fn priorities_are_ordered() {
    assert!(WorkPriority::Background < WorkPriority::Normal);
    assert!(WorkPriority::LateArrivalCorrection < WorkPriority::RealTime);
}
