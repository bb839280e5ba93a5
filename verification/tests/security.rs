use pyterrain_map::security::{
    AuditEvent, AuditEventType, AuditLog, AuditResult, DataClassification, ProvenanceAction,
    ProvenanceChain, ProvenanceStep, RetentionPolicy, SourceIdentity, VerificationStatus,
    MICROS_PER_DAY,
};

#[test]
fn test_source_identity_identifier() {
    let sensor = SourceIdentity::Sensor {
        sensor_id: "cam-01".to_string(),
    };
    assert_eq!(sensor.identifier(), "sensor:cam-01");
}

#[test]
fn source_identity_prefixes() {
    assert_eq!(SourceIdentity::Agent { agent_id: "a".to_string() }.identifier(), "agent:a");
    assert_eq!(SourceIdentity::Model { model_name: "m".to_string() }.identifier(), "model:m");
    assert_eq!(SourceIdentity::User { user_id: "u".to_string() }.identifier(), "user:u");
    assert_eq!(SourceIdentity::API { api_name: "x".to_string() }.identifier(), "api:x");
}

#[test]
fn test_provenance_chain() {
    let origin = ProvenanceStep {
        action: ProvenanceAction::Captured,
        actor: "sensor-01".to_string(),
        timestamp_us: 1000,
        semantic_preserving: true,
    };

    let mut chain = ProvenanceChain::new(origin);
    assert_eq!(chain.total_steps(), 1);

    chain.add_step(ProvenanceStep {
        action: ProvenanceAction::Fused,
        actor: "fusion-engine".to_string(),
        timestamp_us: 2000,
        semantic_preserving: true,
    });

    assert_eq!(chain.total_steps(), 2);
}

#[test]
fn test_retention_policy_expiry() {
    let policy = RetentionPolicy::Days(7);
    let created_at = 0i64;

    assert!(policy.expires_at_us(created_at).is_some());
    let expiry = policy.expires_at_us(created_at).unwrap();
    assert!(expiry > created_at);
}

#[test]
fn retention_periods_are_exact() {
    assert_eq!(RetentionPolicy::Days(7).expires_at_us(5), Some(5 + 7 * MICROS_PER_DAY));
    assert_eq!(RetentionPolicy::Months(2).expires_at_us(0), Some(60 * MICROS_PER_DAY));
    assert_eq!(RetentionPolicy::Years(1).expires_at_us(0), Some(365 * MICROS_PER_DAY));
    assert_eq!(RetentionPolicy::Permanent.expires_at_us(0), None);
    assert_eq!(RetentionPolicy::DeleteOnMissionComplete.expires_at_us(0), None);
}

#[test]
fn expiry_is_strictly_after_the_period() {
    let policy = RetentionPolicy::Days(1);
    assert!(!policy.is_expired_at(0, MICROS_PER_DAY));
    assert!(policy.is_expired_at(0, MICROS_PER_DAY + 1));
    assert!(!RetentionPolicy::Permanent.is_expired_at(0, i64::MAX));
    assert!(!RetentionPolicy::Permanent.is_expired(0));
    assert!(RetentionPolicy::Days(1).is_expired(0));
}

#[test]
fn test_audit_log_append() {
    let mut log = AuditLog::new();
    let event = AuditEvent::new(AuditEventType::ObservationIngested);

    log.append(event.clone());
    assert_eq!(log.event_count(), 1);

    let events = log.all_events();
    assert_eq!(events.len(), 1);
    assert_eq!(events[0].event_type, AuditEventType::ObservationIngested);
}

#[test]
fn test_audit_log_query_by_type() {
    let mut log = AuditLog::new();

    log.append(AuditEvent::new(AuditEventType::ObservationIngested));
    log.append(AuditEvent::new(AuditEventType::CacheUpdated));
    log.append(AuditEvent::new(AuditEventType::ObservationIngested));

    let ingested = log.events_by_type(AuditEventType::ObservationIngested);
    assert_eq!(ingested.len(), 2);
}

#[test]
fn test_audit_log_query_by_actor() {
    let mut log = AuditLog::new();

    log.append(AuditEvent::new(AuditEventType::ObservationIngested).with_actor("agent-1"));
    log.append(AuditEvent::new(AuditEventType::ObservationIngested).with_actor("agent-2"));
    log.append(AuditEvent::new(AuditEventType::ObservationIngested).with_actor("agent-1"));

    let agent1_events = log.events_by_actor("agent-1");
    assert_eq!(agent1_events.len(), 2);
}

#[test]
fn audit_event_defaults_and_builders() {
    let e = AuditEvent::new(AuditEventType::SecurityEvent);
    assert_eq!(e.actor, "unknown");
    assert_eq!(e.system_component, "unknown");
    assert!(matches!(e.result, AuditResult::Success));
    assert_eq!(f32::from_bits(e.confidence_bits), 0.5);
    // random version-4 identifier
    assert_eq!((e.event_id >> 76) & 0xf, 4);
    let e2 = e.with_component("fusion").with_result(AuditResult::Failure("boom".to_string()));
    assert_eq!(e2.system_component, "fusion");
    assert!(matches!(e2.result, AuditResult::Failure(ref m) if m == "boom"));
    let other = AuditEvent::new(AuditEventType::SecurityEvent);
    assert_ne!(other.event_id, e2.event_id);
}

#[test]
fn audit_log_keeps_order_and_earlier_entries() {
    let mut log = AuditLog::default();
    log.append(AuditEvent::new(AuditEventType::AccessRequest).with_actor("x"));
    log.append(AuditEvent::new(AuditEventType::PermissionChanged).with_actor("y"));
    let all = log.all_events();
    assert_eq!(all[0].event_type, AuditEventType::AccessRequest);
    assert_eq!(all[1].actor, "y");
    assert!(log.events_by_actor("z").is_empty());
    assert!(log.events_by_type(AuditEventType::AIInference).is_empty());
}

#[test]
fn test_data_classification() {
    let public = DataClassification::Public;
    let restricted = DataClassification::Restricted;

    assert_ne!(public, restricted);
}

#[test]
fn verification_status_values_differ() {
    assert_ne!(VerificationStatus::Unverified, VerificationStatus::Verified);
}
