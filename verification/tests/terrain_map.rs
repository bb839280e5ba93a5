use pyterrain_map::gaussian_splatting::observability::{ObsContext, ObsEvent};
use pyterrain_map::parallel_execution::{SpaceTimeScheduler, Watermark};
use pyterrain_map::security::{AuditEvent, AuditEventType, HALF_CONFIDENCE_BITS};
use pyterrain_map::terrain_map::ObservationLog;

#[derive(Clone, Debug, PartialEq)]
struct Reading {
    robot_id: String,
    timestamp: i64,
    confidence: f32,
}

fn reading(robot: &str, t: i64) -> Reading {
    Reading { robot_id: robot.to_string(), timestamp: t, confidence: 0.9 }
}

#[test]
fn observation_log_starts_empty() {
    let log: ObservationLog<Reading> = ObservationLog::new();
    assert_eq!(log.len(), 0);
    assert!(log.is_empty());
    assert!(log.observations().is_empty());
}

#[test]
fn observations_are_appended_in_order() {
    let mut log = ObservationLog::new();
    log.push_observation(reading("robot-1", 10));
    log.push_observation(reading("robot-2", 20));
    assert_eq!(log.len(), 2);
    assert_eq!(log.observations()[0], reading("robot-1", 10));
    assert_eq!(log.observations()[1].timestamp, 20);
}

#[test]
fn batch_is_appended_after_existing_and_counted() {
    let mut log = ObservationLog::new();
    log.push_observation(reading("robot-1", 1));
    let before = log.observations().clone();
    let n = log.push_batch(vec![reading("robot-2", 2), reading("robot-3", 3)]);
    assert_eq!(n, 2);
    assert_eq!(log.len(), 3);
    // earlier observations are untouched
    assert_eq!(&log.observations()[..1], &before[..]);
    assert_eq!(log.observations()[2].robot_id, "robot-3");
    assert_eq!(log.push_batch(Vec::new()), 0);
    assert_eq!(log.len(), 3);
}

#[test]
fn clearing_empties_the_log() {
    let mut log = ObservationLog::new();
    log.push_batch(vec![reading("a", 1), reading("b", 2)]);
    log.clear();
    assert!(log.is_empty());
    log.push_observation(reading("c", 3));
    assert_eq!(log.observations().len(), 1);
    assert_eq!(log.observations()[0].confidence, 0.9);
}

#[test]
fn event_at_a_given_time() {
    let ctx = ObsContext::started_at("fusion", Some("bot_01".to_string()), "t".to_string(), "s".to_string(), 5);
    assert_eq!(ctx.start_time_us, 5);
    assert_eq!(ctx.trace_id, "t");
    let e = ObsEvent::at(&ctx, "info", "hello", 1234);
    assert_eq!(e.timestamp_us, 1234);
    assert_eq!(e.trace_id, "t");
    assert_eq!(e.span_id, "s");
    assert_eq!(e.bot_id, Some("bot_01".to_string()));
    assert_eq!(e.message, "hello");
    assert!(e.details.is_empty());
}

#[test]
fn context_ids_are_hyphenated_lowercase_v4() {
    let ctx = ObsContext::new("query", None);
    for id in [&ctx.trace_id, &ctx.span_id] {
        let b = id.as_bytes();
        assert_eq!(b.len(), 36);
        for (i, c) in b.iter().enumerate() {
            if [8, 13, 18, 23].contains(&i) {
                assert_eq!(*c, b'-');
            } else {
                assert!(c.is_ascii_digit() || (b'a'..=b'f').contains(c));
            }
        }
        assert_eq!(b[14], b'4');
        assert!([b'8', b'9', b'a', b'b'].contains(&b[19]));
    }
}

#[test]
fn audit_event_at_a_given_time() {
    let e = AuditEvent::new_at(AuditEventType::CacheUpdated, 77, -3);
    assert_eq!(e.event_id, 77);
    assert_eq!(e.timestamp_us, -3);
    assert_eq!(e.event_type, AuditEventType::CacheUpdated);
    assert_eq!(e.actor, "unknown");
    assert_eq!(e.confidence_bits, HALF_CONFIDENCE_BITS);
    let fresh = AuditEvent::new(AuditEventType::CacheUpdated);
    assert_eq!((fresh.event_id >> 62) & 0x3, 2);
}

#[test]
fn watermark_stamped_at_a_given_time() {
    let mut s = SpaceTimeScheduler::new();
    s.advance_watermark_at("stream".to_string(), 50, 999);
    assert_eq!(s.watermark("stream"), Some(Watermark { max_event_time_us: 50, updated_at_us: 999 }));
    s.advance_watermark_at("stream".to_string(), 60, 1000);
    assert_eq!(s.watermark("stream"), Some(Watermark { max_event_time_us: 60, updated_at_us: 1000 }));
}
