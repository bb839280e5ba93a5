//! Provenance, retention and audit records.

use vstd::prelude::*;
use crate::text::{owned, str_eq, clone_strings};
use crate::sys::{now_micros, new_uuid_v4};

verus! {

broadcast use vstd::seq_lib::group_seq_properties;

/// Source of an observation.
#[derive(Debug)]
pub enum SourceIdentity {
    Sensor { sensor_id: String },
    Agent { agent_id: String },
    Model { model_name: String },
    User { user_id: String },
    API { api_name: String },
}

/// Stable identifier of a source: its kind, a colon, and its name.
pub open spec fn source_identifier(s: SourceIdentity) -> Seq<char> {
    match s {
        SourceIdentity::Sensor { sensor_id } => "sensor:"@ + sensor_id@,
        SourceIdentity::Agent { agent_id } => "agent:"@ + agent_id@,
        SourceIdentity::Model { model_name } => "model:"@ + model_name@,
        SourceIdentity::User { user_id } => "user:"@ + user_id@,
        SourceIdentity::API { api_name } => "api:"@ + api_name@,
    }
}

/// `prefix` followed by `name`, as an owned string.
fn prefixed(prefix: &str, name: &String) -> (r: String)
    ensures
        r@ == prefix@ + name@,
{
    let mut r = owned(prefix);
    r.append(name.as_str());
    r
}

impl SourceIdentity {
    /// Stable identifier, such as `sensor:cam-01`.
    pub fn identifier(&self) -> (id: String)
        ensures
            id@ == source_identifier(*self),
    {
        match self {
            SourceIdentity::Sensor { sensor_id } => prefixed("sensor:", sensor_id),
            SourceIdentity::Agent { agent_id } => prefixed("agent:", agent_id),
            SourceIdentity::Model { model_name } => prefixed("model:", model_name),
            SourceIdentity::User { user_id } => prefixed("user:", user_id),
            SourceIdentity::API { api_name } => prefixed("api:", api_name),
        }
    }
}

impl Clone for SourceIdentity {
    fn clone(&self) -> (c: Self)
        ensures
            c == *self,
    {
        match self {
            SourceIdentity::Sensor { sensor_id } => SourceIdentity::Sensor { sensor_id: sensor_id.clone() },
            SourceIdentity::Agent { agent_id } => SourceIdentity::Agent { agent_id: agent_id.clone() },
            SourceIdentity::Model { model_name } => SourceIdentity::Model { model_name: model_name.clone() },
            SourceIdentity::User { user_id } => SourceIdentity::User { user_id: user_id.clone() },
            SourceIdentity::API { api_name } => SourceIdentity::API { api_name: api_name.clone() },
        }
    }
}

/// Verification status of an observation.
#[derive(Clone, Copy, Debug, PartialEq, Eq, Structural)]
pub enum VerificationStatus {
    Unverified,
    PendingVerification,
    PartiallyVerified,
    Verified,
    Invalid,
}

/// Action recorded in a provenance chain.
#[derive(Clone, Copy, Debug, PartialEq, Eq, Structural)]
pub enum ProvenanceAction {
    Captured,
    Fused,
    Filtered,
    Processed,
    Cached,
    Predicted,
    Verified,
    Transformed,
    Exported,
}

/// Step in a provenance chain.
#[derive(Debug)]
pub struct ProvenanceStep {
    /// What action occurred?
    pub action: ProvenanceAction,
    /// Who performed it?
    pub actor: String,
    /// When? (microseconds since epoch)
    pub timestamp_us: i64,
    /// Did this preserve semantics?
    pub semantic_preserving: bool,
}

impl Clone for ProvenanceStep {
    fn clone(&self) -> (c: Self)
        ensures
            c == *self,
    {
        ProvenanceStep {
            action: self.action,
            actor: self.actor.clone(),
            timestamp_us: self.timestamp_us,
            semantic_preserving: self.semantic_preserving,
        }
    }
}

/// Provenance chain: the original capture and every later transformation,
/// in order. Steps are only ever appended.
#[derive(Debug)]
pub struct ProvenanceChain {
    /// Original capture step
    pub origin: ProvenanceStep,
    /// All transformations
    pub transformations: Vec<ProvenanceStep>,
}

impl ProvenanceChain {
    /// The whole history, origin first.
    pub open spec fn history(&self) -> Seq<ProvenanceStep> {
        seq![self.origin].add(self.transformations@)
    }

    pub fn new(origin: ProvenanceStep) -> (c: Self)
        ensures
            c.origin == origin,
            c.transformations@ == Seq::<ProvenanceStep>::empty(),
            c.history() == seq![origin],
    {
        let c = ProvenanceChain { origin, transformations: Vec::new() };
        assert(c.history() =~= seq![origin]);
        c
    }

    /// Appends a transformation step.
    pub fn add_step(&mut self, step: ProvenanceStep)
        ensures
            final(self).origin == old(self).origin,
            final(self).transformations@ == old(self).transformations@.push(step),
            final(self).history() == old(self).history().push(step),
    {
        self.transformations.push(step);
        assert(self.history() =~= old(self).history().push(step));
    }

    /// Number of steps including the origin.
    pub fn total_steps(&self) -> (n: usize)
        requires
            self.transformations@.len() < usize::MAX,
        ensures
            n == self.history().len(),
            n == 1 + self.transformations@.len(),
    {
        1 + self.transformations.len()
    }
}

/// Appending a step never alters earlier history and adds exactly one step.
pub proof fn lemma_provenance_append_only(before: ProvenanceChain, after: ProvenanceChain, step: ProvenanceStep)
    requires
        after.origin == before.origin,
        after.transformations@ == before.transformations@.push(step),
    ensures
        after.history().len() == before.history().len() + 1,
        after.history().take(before.history().len() as int) == before.history(),
        after.history().last() == step,
{
    assert(after.history() =~= before.history().push(step));
    assert(after.history().take(before.history().len() as int) =~= before.history());
}

/// Data classification levels.
#[derive(Clone, Copy, Debug, PartialEq, Eq, Structural)]
pub enum DataClassification {
    Public,
    Internal,
    Confidential,
    Restricted,
}

/// How long data is kept.
#[derive(Clone, Copy, Debug, PartialEq, Eq, Structural)]
pub enum RetentionPolicy {
    Permanent,
    Years(u32),
    Months(u32),
    Days(u32),
    DeleteOnMissionComplete,
}

/// Microseconds in a day.
pub const MICROS_PER_DAY: i64 = 86_400_000_000;

/// Retention period in microseconds (years count 365 days, months 30), or
/// none when the data never expires on a clock.
pub open spec fn retention_period_us(p: RetentionPolicy) -> Option<int> {
    match p {
        RetentionPolicy::Permanent => None,
        RetentionPolicy::Years(y) => Some(y * 365 * 86_400_000_000),
        RetentionPolicy::Months(m) => Some(m * 30 * 86_400_000_000),
        RetentionPolicy::Days(d) => Some(d * 86_400_000_000),
        RetentionPolicy::DeleteOnMissionComplete => None,
    }
}

/// Whether the retention period and the expiry time of data created at
/// `created_at_us` are representable in microseconds.
pub open spec fn expiry_fits(p: RetentionPolicy, created_at_us: int) -> bool {
    match retention_period_us(p) {
        None => true,
        Some(d) => d <= i64::MAX && created_at_us + d <= i64::MAX,
    }
}

impl RetentionPolicy {
    /// Expiry time of data created at `created_at_us`, or `None` for
    /// policies that do not expire on a clock.
    pub fn expires_at_us(&self, created_at_us: i64) -> (e: Option<i64>)
        requires
            expiry_fits(*self, created_at_us as int),
        ensures
            match retention_period_us(*self) {
                None => e is None,
                Some(d) => e == Some((created_at_us + d) as i64),
            },
    {
        match self {
            RetentionPolicy::Permanent => None,
            RetentionPolicy::Years(y) => {
                let d: i64 = (*y as i64) * 365 * MICROS_PER_DAY;
                Some(created_at_us + d)
            },
            RetentionPolicy::Months(m) => {
                let d: i64 = (*m as i64) * 30 * MICROS_PER_DAY;
                Some(created_at_us + d)
            },
            RetentionPolicy::Days(d) => {
                let d: i64 = (*d as i64) * MICROS_PER_DAY;
                Some(created_at_us + d)
            },
            RetentionPolicy::DeleteOnMissionComplete => None,
        }
    }

    /// Whether data created at `created_at_us` has expired at `now_us`:
    /// strictly after its expiry time; never for policies without one.
    pub fn is_expired_at(&self, created_at_us: i64, now_us: i64) -> (b: bool)
        requires
            expiry_fits(*self, created_at_us as int),
        ensures
            b == match retention_period_us(*self) {
                None => false,
                Some(d) => now_us > created_at_us + d,
            },
    {
        match self.expires_at_us(created_at_us) {
            Some(expiry) => now_us > expiry,
            None => false,
        }
    }

    /// Whether data created at `created_at_us` has expired by the system
    /// clock. What the clock reads is not known; the answer is the one
    /// `is_expired_at` gives for the reading.
    pub fn is_expired(&self, created_at_us: i64) -> (b: bool)
        requires
            expiry_fits(*self, created_at_us as int),
        ensures
            retention_period_us(*self) is None ==> !b,
    {
        let now = now_micros();
        self.is_expired_at(created_at_us, now)
    }
}

/// Audit event types.
#[derive(Clone, Copy, Debug, PartialEq, Eq, Structural)]
pub enum AuditEventType {
    ObservationIngested,
    SensorFusionDecision,
    CacheUpdated,
    PredictivePrefetch,
    AIInference,
    WorldStateModified,
    AccessRequest,
    PermissionChanged,
    SecurityEvent,
    VerificationPerformed,
}

/// Audit outcome.
#[derive(Debug)]
pub enum AuditResult {
    Success,
    Partial,
    Failure(String),
    SecurityEvent(String),
}

impl Clone for AuditResult {
    fn clone(&self) -> (c: Self)
        ensures
            c == *self,
    {
        match self {
            AuditResult::Success => AuditResult::Success,
            AuditResult::Partial => AuditResult::Partial,
            AuditResult::Failure(s) => AuditResult::Failure(s.clone()),
            AuditResult::SecurityEvent(s) => AuditResult::SecurityEvent(s.clone()),
        }
    }
}

/// The IEEE-754 single-precision bits of 0.5, the confidence a new audit
/// event carries.
pub const HALF_CONFIDENCE_BITS: u32 = 0x3F00_0000;

/// Single audit event (immutable record). Identifiers are the 128-bit
/// values of UUIDs; the confidence is held as the bits of its
/// single-precision value.
#[derive(Debug)]
pub struct AuditEvent {
    /// Unique event ID
    pub event_id: u128,
    /// Type of event
    pub event_type: AuditEventType,
    /// When? (microseconds since epoch)
    pub timestamp_us: i64,
    /// Who initiated?
    pub actor: String,
    /// Which system?
    pub system_component: String,
    /// Input observation IDs
    pub input_observations: Vec<u128>,
    /// Models involved
    pub models_involved: Vec<String>,
    /// Confidence level (single-precision bits)
    pub confidence_bits: u32,
    /// Outcome
    pub result: AuditResult,
}

/// The plain content of an audit event: its lists are taken by their
/// contents.
pub struct AuditRecord {
    pub event_id: u128,
    pub event_type: AuditEventType,
    pub timestamp_us: i64,
    pub actor: String,
    pub system_component: String,
    pub input_observations: Seq<u128>,
    pub models_involved: Seq<String>,
    pub confidence_bits: u32,
    pub result: AuditResult,
}

impl View for AuditEvent {
    type V = AuditRecord;

    open spec fn view(&self) -> AuditRecord {
        AuditRecord {
            event_id: self.event_id,
            event_type: self.event_type,
            timestamp_us: self.timestamp_us,
            actor: self.actor,
            system_component: self.system_component,
            input_observations: self.input_observations@,
            models_involved: self.models_involved@,
            confidence_bits: self.confidence_bits,
            result: self.result,
        }
    }
}

/// A copy of a list of identifiers.
fn clone_ids(v: &Vec<u128>) -> (r: Vec<u128>)
    ensures
        r@ == v@,
{
    let mut r: Vec<u128> = Vec::new();
    let mut i: usize = 0;
    while i < v.len()
        invariant
            i <= v.len(),
            r@ == v@.take(i as int),
        decreases v.len() - i,
    {
        r.push(v[i]);
        i = i + 1;
    }
    assert(v@.take(v.len() as int) =~= v@);
    r
}

impl Clone for AuditEvent {
    fn clone(&self) -> (c: Self)
        ensures
            c@ == self@,
    {
        let input_observations = clone_ids(&self.input_observations);
        let models_involved = clone_strings(&self.models_involved);
        AuditEvent {
            event_id: self.event_id,
            event_type: self.event_type,
            timestamp_us: self.timestamp_us,
            actor: self.actor.clone(),
            system_component: self.system_component.clone(),
            input_observations,
            models_involved,
            confidence_bits: self.confidence_bits,
            result: self.result.clone(),
        }
    }
}

impl AuditEvent {
    /// A new successful event of the given type with identifier `event_id`
    /// at time `timestamp_us`, by an unknown actor in an unknown component,
    /// with confidence 0.5 and no inputs or models.
    pub fn new_at(event_type: AuditEventType, event_id: u128, timestamp_us: i64) -> (e: Self)
        ensures
            e.event_id == event_id,
            e.timestamp_us == timestamp_us,
            e.event_type == event_type,
            e.actor@ == "unknown"@,
            e.system_component@ == "unknown"@,
            e.input_observations@ == Seq::<u128>::empty(),
            e.models_involved@ == Seq::<String>::empty(),
            e.confidence_bits == HALF_CONFIDENCE_BITS,
            e.result is Success,
    {
        AuditEvent {
            event_id,
            event_type,
            timestamp_us,
            actor: owned("unknown"),
            system_component: owned("unknown"),
            input_observations: Vec::new(),
            models_involved: Vec::new(),
            confidence_bits: HALF_CONFIDENCE_BITS,
            result: AuditResult::Success,
        }
    }

    /// A new successful event of the given type, as `new_at` builds it, with
    /// a fresh random version-4 identifier and the system clock's reading.
    pub fn new(event_type: AuditEventType) -> (e: Self)
        ensures
            e.event_type == event_type,
            (e.event_id >> 76u128) & 0xfu128 == 4,
            (e.event_id >> 62u128) & 0x3u128 == 2,
            e.actor@ == "unknown"@,
            e.system_component@ == "unknown"@,
            e.input_observations@ == Seq::<u128>::empty(),
            e.models_involved@ == Seq::<String>::empty(),
            e.confidence_bits == HALF_CONFIDENCE_BITS,
            e.result is Success,
    {
        let event_id = new_uuid_v4();
        let timestamp_us = now_micros();
        Self::new_at(event_type, event_id, timestamp_us)
    }

    /// The same event attributed to `actor`.
    pub fn with_actor(self, actor: &str) -> (e: Self)
        ensures
            e.actor@ == actor@,
            e.event_id == self.event_id,
            e.event_type == self.event_type,
            e.timestamp_us == self.timestamp_us,
            e.system_component == self.system_component,
            e.input_observations@ == self.input_observations@,
            e.models_involved@ == self.models_involved@,
            e.confidence_bits == self.confidence_bits,
            e.result == self.result,
    {
        let mut e = self;
        e.actor = owned(actor);
        e
    }

    /// The same event attributed to `component`.
    pub fn with_component(self, component: &str) -> (e: Self)
        ensures
            e.system_component@ == component@,
            e.event_id == self.event_id,
            e.event_type == self.event_type,
            e.timestamp_us == self.timestamp_us,
            e.actor == self.actor,
            e.input_observations@ == self.input_observations@,
            e.models_involved@ == self.models_involved@,
            e.confidence_bits == self.confidence_bits,
            e.result == self.result,
    {
        let mut e = self;
        e.system_component = owned(component);
        e
    }

    /// The same event with outcome `result`.
    pub fn with_result(self, result: AuditResult) -> (e: Self)
        ensures
            e.result == result,
            e.event_id == self.event_id,
            e.event_type == self.event_type,
            e.timestamp_us == self.timestamp_us,
            e.actor == self.actor,
            e.system_component == self.system_component,
            e.input_observations@ == self.input_observations@,
            e.models_involved@ == self.models_involved@,
            e.confidence_bits == self.confidence_bits,
    {
        let mut e = self;
        e.result = result;
        e
    }
}

/// Events of the given type, in log order.
pub open spec fn of_type(events: Seq<AuditRecord>, t: AuditEventType) -> Seq<AuditRecord> {
    events.filter(|e: AuditRecord| e.event_type == t)
}

/// Events by the given actor, in log order.
pub open spec fn by_actor(events: Seq<AuditRecord>, actor: Seq<char>) -> Seq<AuditRecord> {
    events.filter(|e: AuditRecord| e.actor@ == actor)
}

/// The records of a sequence of events.
pub open spec fn records(events: Seq<AuditEvent>) -> Seq<AuditRecord> {
    events.map_values(|e: AuditEvent| e@)
}

/// Append-only audit log.
pub struct AuditLog {
    events: Vec<AuditEvent>,
}

impl AuditLog {
    /// The events recorded so far, oldest first.
    pub closed spec fn entries(&self) -> Seq<AuditRecord> {
        records(self.events@)
    }

    pub fn new() -> (l: Self)
        ensures
            l.entries() == Seq::<AuditRecord>::empty(),
    {
        let l = AuditLog { events: Vec::new() };
        assert(l.entries() =~= Seq::<AuditRecord>::empty());
        l
    }

    /// Appends an event; nothing recorded before is changed.
    pub fn append(&mut self, event: AuditEvent)
        ensures
            final(self).entries() == old(self).entries().push(event@),
    {
        let ghost e = event@;
        self.events.push(event);
        assert(self.entries() =~= old(self).entries().push(e));
    }

    /// Copies of all events, oldest first.
    pub fn all_events(&self) -> (v: Vec<AuditEvent>)
        ensures
            records(v@) == self.entries(),
    {
        let mut v: Vec<AuditEvent> = Vec::new();
        let mut i: usize = 0;
        while i < self.events.len()
            invariant
                i <= self.events@.len(),
                records(v@) == records(self.events@.take(i as int)),
            decreases self.events.len() - i,
        {
            let ghost prev = v@;
            v.push(self.events[i].clone());
            assert(records(v@) =~= records(prev).push(self.events@[i as int]@));
            assert(records(self.events@.take(i + 1)) =~= records(self.events@.take(i as int)).push(self.events@[i as int]@));
            i = i + 1;
        }
        assert(self.events@.take(self.events@.len() as int) =~= self.events@);
        v
    }

    /// Copies of the events of type `event_type`, oldest first.
    pub fn events_by_type(&self, event_type: AuditEventType) -> (v: Vec<AuditEvent>)
        ensures
            records(v@) == of_type(self.entries(), event_type),
    {
        let mut v: Vec<AuditEvent> = Vec::new();
        let mut i: usize = 0;
        while i < self.events.len()
            invariant
                i <= self.events@.len(),
                records(v@) == of_type(records(self.events@.take(i as int)), event_type),
            decreases self.events.len() - i,
        {
            let ghost prefix = records(self.events@.take(i as int));
            let ghost rec = self.events@[i as int]@;
            assert(records(self.events@.take(i + 1)) =~= prefix.push(rec));
            proof {
                prefix.lemma_filter_push(rec, |e: AuditRecord| e.event_type == event_type);
            }
            let ghost prev = v@;
            if self.events[i].event_type == event_type {
                v.push(self.events[i].clone());
                assert(records(v@) =~= records(prev).push(rec));
            }
            i = i + 1;
        }
        assert(self.events@.take(self.events@.len() as int) =~= self.events@);
        v
    }

    /// Copies of the events by `actor`, oldest first.
    pub fn events_by_actor(&self, actor: &str) -> (v: Vec<AuditEvent>)
        ensures
            records(v@) == by_actor(self.entries(), actor@),
    {
        let mut v: Vec<AuditEvent> = Vec::new();
        let mut i: usize = 0;
        while i < self.events.len()
            invariant
                i <= self.events@.len(),
                records(v@) == by_actor(records(self.events@.take(i as int)), actor@),
            decreases self.events.len() - i,
        {
            let ghost prefix = records(self.events@.take(i as int));
            let ghost rec = self.events@[i as int]@;
            assert(records(self.events@.take(i + 1)) =~= prefix.push(rec));
            proof {
                prefix.lemma_filter_push(rec, |e: AuditRecord| e.actor@ == actor@);
            }
            let ghost prev = v@;
            if str_eq(self.events[i].actor.as_str(), actor) {
                v.push(self.events[i].clone());
                assert(records(v@) =~= records(prev).push(rec));
            }
            i = i + 1;
        }
        assert(self.events@.take(self.events@.len() as int) =~= self.events@);
        v
    }

    /// Number of recorded events.
    pub fn event_count(&self) -> (n: usize)
        ensures
            n == self.entries().len(),
    {
        self.events.len()
    }
}

impl Default for AuditLog {
    fn default() -> (l: Self)
        ensures
            l.entries() == Seq::<AuditRecord>::empty(),
    {
        AuditLog::new()
    }
}

/// The audit log is append-only: after any sequence of appends, every event
/// recorded earlier is still there, at the same position.
pub proof fn lemma_audit_log_append_only(before: Seq<AuditRecord>, appended: Seq<AuditRecord>)
    ensures
        (before + appended).take(before.len() as int) == before,
        (before + appended).len() == before.len() + appended.len(),
{
    assert((before + appended).take(before.len() as int) =~= before);
}

/// Querying by type after an append sees the new event exactly when it has
/// that type, after the earlier matches.
pub proof fn lemma_audit_query_after_append(events: Seq<AuditRecord>, e: AuditRecord, t: AuditEventType)
    ensures
        of_type(events.push(e), t) == if e.event_type == t {
            of_type(events, t).push(e)
        } else {
            of_type(events, t)
        },
{
    events.lemma_filter_push(e, |x: AuditRecord| x.event_type == t);
}

} // verus!
