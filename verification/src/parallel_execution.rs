//! Space-time scheduling: work is queued per (region, time window, agent)
//! partition, late-arrival corrections take precedence, and stream
//! watermarks record the largest event time seen.

use vstd::prelude::*;
use std::collections::VecDeque;
use crate::order::{chars_lt, str_lt, lemma_chars_lt_transitive, lemma_chars_lt_total,
    lemma_chars_lt_irreflexive};
use crate::text::{str_eq, owned};
use crate::sys::{now_micros, new_uuid_v4};

verus! {

broadcast use vstd::seq_lib::group_seq_properties;

/// GPU device identifier.
#[derive(Clone, Copy, Debug, PartialEq, Eq, Hash, PartialOrd, Ord, Structural)]
pub struct GPUDeviceId(pub u32);

/// Spatial region used to partition observations.
#[derive(Clone, Copy, Debug, PartialEq, Eq, Hash, PartialOrd, Ord, Structural)]
pub struct RegionId {
    /// H3 cell ID representing this region
    pub h3_cell: u64,
    /// Resolution level (0-15)
    pub resolution: u8,
}

/// Half-open time window `[start_us, end_us)` used to partition observations.
#[derive(Clone, Copy, Debug, PartialEq, Eq, Hash, PartialOrd, Ord, Structural)]
pub struct TimeWindow {
    /// Start time (microseconds since epoch)
    pub start_us: i64,
    /// End time (microseconds since epoch)
    pub end_us: i64,
}

impl TimeWindow {
    pub fn new(start_us: i64, end_us: i64) -> (w: Self)
        ensures
            w.start_us == start_us,
            w.end_us == end_us,
    {
        TimeWindow { start_us, end_us }
    }

    /// Length of the window.
    pub fn duration_us(&self) -> (d: i64)
        requires
            i64::MIN <= self.end_us - self.start_us <= i64::MAX,
        ensures
            d == self.end_us - self.start_us,
    {
        self.end_us - self.start_us
    }

    /// Whether `time_us` falls in the window (start inclusive, end exclusive).
    pub fn contains(&self, time_us: i64) -> (b: bool)
        ensures
            b == (self.start_us <= time_us && time_us < self.end_us),
    {
        time_us >= self.start_us && time_us < self.end_us
    }
}

/// Agent identifier for multi-agent parallelism.
#[derive(Debug)]
pub struct AgentId(pub String);

impl Clone for AgentId {
    fn clone(&self) -> (c: Self)
        ensures
            c == *self,
    {
        AgentId(self.0.clone())
    }
}

/// Type of work to execute.
#[derive(Debug)]
pub enum WorkType {
    SpatialQuery,
    TemporalQuery,
    SensorFusion,
    AnomalyDetection,
    Inference { model_name: String },
    Reconstruction3D,
    GraphTraversal,
}

impl Clone for WorkType {
    fn clone(&self) -> (c: Self)
        ensures
            c == *self,
    {
        match self {
            WorkType::SpatialQuery => WorkType::SpatialQuery,
            WorkType::TemporalQuery => WorkType::TemporalQuery,
            WorkType::SensorFusion => WorkType::SensorFusion,
            WorkType::AnomalyDetection => WorkType::AnomalyDetection,
            WorkType::Inference { model_name } => WorkType::Inference { model_name: model_name.clone() },
            WorkType::Reconstruction3D => WorkType::Reconstruction3D,
            WorkType::GraphTraversal => WorkType::GraphTraversal,
        }
    }
}

/// Work priority, lowest first.
#[derive(Clone, Copy, Debug, PartialEq, Eq, PartialOrd, Ord, Structural)]
pub enum WorkPriority {
    Background,
    Batch,
    Normal,
    HighPriority,
    /// Highest but one: temporal consistency.
    LateArrivalCorrection,
    RealTime,
}

/// Watermark of a stream.
#[derive(Clone, Copy, Debug, PartialEq, Eq, Structural)]
pub struct Watermark {
    /// Maximum event time seen in this stream
    pub max_event_time_us: i64,
    /// When the watermark was last updated
    pub updated_at_us: i64,
}

/// GPU resource availability. The utilization fraction is held as the bits
/// of its single-precision value.
#[derive(Clone, Copy, Debug, PartialEq, Eq, Structural)]
pub struct GPUResources {
    pub device_id: GPUDeviceId,
    /// Compute capability level (higher = more powerful)
    pub compute_capacity: u32,
    /// Total memory in bytes
    pub total_memory: u64,
    /// Available memory in bytes
    pub available_memory: u64,
    /// Current utilization (single-precision bits of a 0.0-1.0 fraction)
    pub utilization_bits: u32,
    /// Whether the device is healthy
    pub is_healthy: bool,
}

/// Work packet scheduled for GPU execution. The identifier is the 128-bit
/// value of a UUID.
#[derive(Debug)]
pub struct WorkPacket {
    pub id: u128,
    /// Target GPU device
    pub target_gpu: Option<GPUDeviceId>,
    /// Spatial region (if applicable)
    pub region: Option<RegionId>,
    /// Temporal window (if applicable)
    pub time_window: Option<TimeWindow>,
    /// Agent executing this work (if applicable)
    pub agent: Option<AgentId>,
    /// Work type (query, inference, fusion, etc.)
    pub work_type: WorkType,
    /// Priority (higher = execute sooner)
    pub priority: WorkPriority,
    /// When this work was created
    pub created_at_us: i64,
}

/// Task representing a late-arriving observation.
#[derive(Debug)]
pub struct LateArrivalTask {
    pub obs_id: u128,
    pub event_time_us: i64,
    pub ingestion_time_us: i64,
    pub affected_regions: Vec<RegionId>,
    pub affected_time_windows: Vec<TimeWindow>,
    pub priority: WorkPriority,
}

/// Temporal correction to apply.
#[derive(Clone, Copy, Debug, PartialEq, Eq, Structural)]
pub struct TemporalCorrection {
    pub original_obs_id: u128,
    pub corrected_obs_id: u128,
    pub time_window: TimeWindow,
    pub region: RegionId,
}

/// Scheduler counters.
#[derive(Clone, Copy, Debug, PartialEq, Eq, Structural)]
pub struct SchedulerMetrics {
    pub total_work_packets: u64,
    pub completed_work_packets: u64,
    pub failed_work_packets: u64,
    pub avg_queuing_time_us: u64,
    pub avg_execution_time_us: u64,
    pub late_arrivals_handled: u64,
    pub temporal_corrections_applied: u64,
}

/// All counters zero.
pub open spec fn zero_metrics() -> SchedulerMetrics {
    SchedulerMetrics {
        total_work_packets: 0,
        completed_work_packets: 0,
        failed_work_packets: 0,
        avg_queuing_time_us: 0,
        avg_execution_time_us: 0,
        late_arrivals_handled: 0,
        temporal_corrections_applied: 0,
    }
}

impl Default for SchedulerMetrics {
    fn default() -> (m: Self)
        ensures
            m == zero_metrics(),
    {
        SchedulerMetrics {
            total_work_packets: 0,
            completed_work_packets: 0,
            failed_work_packets: 0,
            avg_queuing_time_us: 0,
            avg_execution_time_us: 0,
            late_arrivals_handled: 0,
            temporal_corrections_applied: 0,
        }
    }
}

/// Execution metadata for observations.
#[derive(Debug)]
pub struct ExecutionMetadata {
    /// GPU device where the observation was processed
    pub processing_gpu: Option<GPUDeviceId>,
    /// Spatial partition ID
    pub spatial_partition: Option<RegionId>,
    /// Temporal partition ID
    pub temporal_partition: Option<TimeWindow>,
    /// Agent that created/processed this
    pub agent_id: Option<AgentId>,
    /// Processing latency in microseconds
    pub processing_latency_us: u32,
    /// How many times this has been reprocessed (for late arrivals)
    pub reprocess_count: u32,
    /// When this observation was last processed
    pub last_processed_us: i64,
}

impl Default for ExecutionMetadata {
    fn default() -> (m: Self)
        ensures
            m.processing_gpu is None,
            m.spatial_partition is None,
            m.temporal_partition is None,
            m.agent_id is None,
            m.processing_latency_us == 0,
            m.reprocess_count == 0,
            m.last_processed_us == 0,
    {
        ExecutionMetadata {
            processing_gpu: None,
            spatial_partition: None,
            temporal_partition: None,
            agent_id: None,
            processing_latency_us: 0,
            reprocess_count: 0,
            last_processed_us: 0,
        }
    }
}

// ---------------------------------------------------------------------------
// Partition keys and their order
// ---------------------------------------------------------------------------

/// Partition a work packet is queued under.
#[derive(Debug)]
pub struct QueueKey {
    pub region: Option<RegionId>,
    pub time_window: Option<TimeWindow>,
    pub agent: Option<AgentId>,
}

/// Content of a partition key, with the agent taken by its characters.
pub struct KeyView {
    pub region: Option<RegionId>,
    pub time_window: Option<TimeWindow>,
    pub agent: Option<Seq<char>>,
}

impl View for QueueKey {
    type V = KeyView;

    open spec fn view(&self) -> KeyView {
        KeyView {
            region: self.region,
            time_window: self.time_window,
            agent: match self.agent {
                Some(a) => Some(a.0@),
                None => None,
            },
        }
    }
}

/// The partition key of a packet.
pub open spec fn packet_key(p: WorkPacket) -> KeyView {
    KeyView {
        region: p.region,
        time_window: p.time_window,
        agent: match p.agent {
            Some(a) => Some(a.0@),
            None => None,
        },
    }
}

/// Region order: by cell, then by resolution; absent regions first.
pub open spec fn region_lt(a: Option<RegionId>, b: Option<RegionId>) -> bool {
    match (a, b) {
        (None, Some(_)) => true,
        (Some(x), Some(y)) => x.h3_cell < y.h3_cell || (x.h3_cell == y.h3_cell && x.resolution
            < y.resolution),
        _ => false,
    }
}

/// Window order: by start, then by end; absent windows first.
pub open spec fn window_lt(a: Option<TimeWindow>, b: Option<TimeWindow>) -> bool {
    match (a, b) {
        (None, Some(_)) => true,
        (Some(x), Some(y)) => x.start_us < y.start_us || (x.start_us == y.start_us && x.end_us
            < y.end_us),
        _ => false,
    }
}

/// Agent order: by name; absent agents first.
pub open spec fn agent_lt(a: Option<Seq<char>>, b: Option<Seq<char>>) -> bool {
    match (a, b) {
        (None, Some(_)) => true,
        (Some(x), Some(y)) => chars_lt(x, y),
        _ => false,
    }
}

/// Order of partition keys: by region, then window, then agent (the order
/// of the derived comparison on the key tuple).
pub open spec fn key_lt(a: KeyView, b: KeyView) -> bool {
    ||| region_lt(a.region, b.region)
    ||| a.region == b.region && window_lt(a.time_window, b.time_window)
    ||| a.region == b.region && a.time_window == b.time_window && agent_lt(a.agent, b.agent)
}

proof fn lemma_key_lt_transitive(a: KeyView, b: KeyView, c: KeyView)
    requires
        key_lt(a, b),
        key_lt(b, c),
    ensures
        key_lt(a, c),
{
    if a.region == b.region && b.region == c.region && a.time_window == b.time_window
        && b.time_window == c.time_window {
        if let (Some(x), Some(y), Some(z)) = (a.agent, b.agent, c.agent) {
            lemma_chars_lt_transitive(x, y, z);
        }
    }
}

proof fn lemma_key_lt_irreflexive(a: KeyView)
    ensures
        !key_lt(a, a),
{
    if let Some(x) = a.agent {
        lemma_chars_lt_irreflexive(x);
    }
}

proof fn lemma_key_lt_total(a: KeyView, b: KeyView)
    ensures
        a == b || key_lt(a, b) || key_lt(b, a),
{
    if let (Some(x), Some(y)) = (a.agent, b.agent) {
        lemma_chars_lt_total(x, y);
    }
}

fn agent_lt_exec(a: &Option<AgentId>, b: &Option<AgentId>) -> (r: bool)
    ensures
        r == agent_lt(
            match *a { Some(x) => Some(x.0@), None => None },
            match *b { Some(x) => Some(x.0@), None => None },
        ),
{
    match (a, b) {
        (None, Some(_)) => true,
        (Some(x), Some(y)) => str_lt(x.0.as_str(), y.0.as_str()),
        _ => false,
    }
}

fn agent_eq_exec(a: &Option<AgentId>, b: &Option<AgentId>) -> (r: bool)
    ensures
        r == ((match *a { Some(x) => Some(x.0@), None => None }) == (match *b {
            Some(x) => Some(x.0@),
            None => None,
        })),
{
    match (a, b) {
        (None, None) => true,
        (Some(x), Some(y)) => str_eq(x.0.as_str(), y.0.as_str()),
        _ => false,
    }
}

fn key_lt_exec(a: &QueueKey, b: &QueueKey) -> (r: bool)
    ensures
        r == key_lt(a@, b@),
{
    let rl = match (a.region, b.region) {
        (None, Some(_)) => true,
        (Some(x), Some(y)) => x.h3_cell < y.h3_cell || (x.h3_cell == y.h3_cell && x.resolution
            < y.resolution),
        _ => false,
    };
    if rl {
        return true;
    }
    if a.region != b.region {
        return false;
    }
    let wl = match (a.time_window, b.time_window) {
        (None, Some(_)) => true,
        (Some(x), Some(y)) => x.start_us < y.start_us || (x.start_us == y.start_us && x.end_us
            < y.end_us),
        _ => false,
    };
    if wl {
        return true;
    }
    if a.time_window != b.time_window {
        return false;
    }
    agent_lt_exec(&a.agent, &b.agent)
}

fn key_eq_exec(a: &QueueKey, b: &QueueKey) -> (r: bool)
    ensures
        r == (a@ == b@),
{
    a.region == b.region && a.time_window == b.time_window && agent_eq_exec(&a.agent, &b.agent)
}

fn clone_agent(a: &Option<AgentId>) -> (r: Option<AgentId>)
    ensures
        r == *a,
{
    match a {
        Some(x) => Some(x.clone()),
        None => None,
    }
}

// ---------------------------------------------------------------------------
// Batching
// ---------------------------------------------------------------------------

/// Largest batch taken from the partition queues at once.
pub const MAX_BATCH: usize = 32;

/// Largest batch of late-arrival corrections handed out at once.
pub const LATE_BATCH: usize = 10;

/// Packets taken from the first `n` queues: the front of each non-empty
/// queue, in queue order, until `MAX_BATCH` packets are taken.
pub open spec fn fronts(qs: Seq<Seq<WorkPacket>>, n: int) -> Seq<WorkPacket>
    decreases n,
{
    if n <= 0 {
        Seq::empty()
    } else {
        let f = fronts(qs, n - 1);
        if qs[n - 1].len() > 0 && f.len() < MAX_BATCH {
            f.push(qs[n - 1][0])
        } else {
            f
        }
    }
}

/// Whether queue `j` gives up its front packet to the batch.
pub open spec fn taken_from(qs: Seq<Seq<WorkPacket>>, j: int) -> bool {
    qs[j].len() > 0 && fronts(qs, j).len() < MAX_BATCH
}

/// Queue contents after a batch is taken.
pub open spec fn after_batch(qs: Seq<Seq<WorkPacket>>) -> Seq<Seq<WorkPacket>> {
    Seq::new(qs.len(), |j: int| if taken_from(qs, j) { qs[j].drop_first() } else { qs[j] })
}

proof fn lemma_fronts_bounded(qs: Seq<Seq<WorkPacket>>, n: int)
    ensures
        fronts(qs, n).len() <= MAX_BATCH,
    decreases n,
{
    if n > 0 {
        lemma_fronts_bounded(qs, n - 1);
    }
}

/// Number of packets waiting in the first `n` queues.
pub open spec fn total_queued(qs: Seq<Seq<WorkPacket>>, n: int) -> int
    decreases n,
{
    if n <= 0 {
        0
    } else {
        total_queued(qs, n - 1) + qs[n - 1].len()
    }
}

proof fn lemma_batch_conserves_prefix(qs: Seq<Seq<WorkPacket>>, n: int)
    requires
        0 <= n <= qs.len(),
    ensures
        total_queued(after_batch(qs), n) + fronts(qs, n).len() == total_queued(qs, n),
    decreases n,
{
    if n > 0 {
        lemma_batch_conserves_prefix(qs, n - 1);
    }
}

/// Taking a batch neither loses nor duplicates work: the packets handed out
/// plus those still queued are exactly those queued before, and each
/// partition queue keeps its order behind the packet it gave up.
pub proof fn lemma_batch_conserves_packets(qs: Seq<Seq<WorkPacket>>)
    ensures
        total_queued(after_batch(qs), qs.len() as int) + fronts(qs, qs.len() as int).len()
            == total_queued(qs, qs.len() as int),
        after_batch(qs).len() == qs.len(),
        forall|j: int|
            0 <= j < qs.len() ==> (#[trigger] after_batch(qs)[j] == if taken_from(qs, j) {
                qs[j].subrange(1, qs[j].len() as int)
            } else {
                qs[j]
            }),
{
    lemma_batch_conserves_prefix(qs, qs.len() as int);
}

/// Watermark recorded for `stream`: the last entry for it, if any.
pub open spec fn lookup_watermark(entries: Seq<(String, Watermark)>, stream: Seq<char>) -> Option<
    Watermark,
>
    decreases entries.len(),
{
    if entries.len() == 0 {
        None
    } else if entries.last().0@ == stream {
        Some(entries.last().1)
    } else {
        lookup_watermark(entries.drop_last(), stream)
    }
}

proof fn lemma_lookup_remove_other(entries: Seq<(String, Watermark)>, i: int, stream: Seq<char>)
    requires
        0 <= i < entries.len(),
        entries[i].0@ != stream,
    ensures
        lookup_watermark(entries.remove(i), stream) == lookup_watermark(entries, stream),
    decreases entries.len(),
{
    if i < entries.len() - 1 {
        assert(entries.remove(i).last() == entries.last());
        assert(entries.remove(i).drop_last() =~= entries.drop_last().remove(i));
        lemma_lookup_remove_other(entries.drop_last(), i, stream);
    } else {
        assert(entries.remove(i) =~= entries.drop_last());
    }
}

/// Whether a GPU is healthy and has at least `required` bytes available.
pub open spec fn gpu_fits(g: GPUResources, required: u64) -> bool {
    g.is_healthy && g.available_memory >= required
}

/// Space-time scheduler: queues work by partition and hands it out in
/// batches, late-arrival corrections first.
pub struct SpaceTimeScheduler {
    /// Partition keys, strictly increasing.
    queue_keys: Vec<QueueKey>,
    /// Work queue of each partition, aligned with `queue_keys`.
    queues: Vec<VecDeque<WorkPacket>>,
    /// GPU resource pool.
    gpu_resources: Vec<GPUResources>,
    /// Watermark entries per stream.
    watermarks: Vec<(String, Watermark)>,
    /// Late-arrival correction tasks (high priority).
    late_arrival_queue: Vec<LateArrivalTask>,
    /// Historical corrections to apply.
    corrections_queue: Vec<TemporalCorrection>,
    /// Counters.
    metrics: SchedulerMetrics,
}

impl SpaceTimeScheduler {
    /// Partition keys in increasing order.
    pub closed spec fn keys(&self) -> Seq<KeyView> {
        self.queue_keys@.map_values(|k: QueueKey| k@)
    }

    /// Queued packets of each partition, aligned with `keys`.
    pub closed spec fn queued(&self) -> Seq<Seq<WorkPacket>> {
        self.queues@.map_values(|q: VecDeque<WorkPacket>| q@)
    }

    /// Registered GPUs, in registration order.
    pub closed spec fn gpus(&self) -> Seq<GPUResources> {
        self.gpu_resources@
    }

    /// Pending late-arrival tasks, oldest first.
    pub closed spec fn late_tasks(&self) -> Seq<LateArrivalTask> {
        self.late_arrival_queue@
    }

    /// Current watermark of a stream.
    pub closed spec fn watermark_of(&self, stream: Seq<char>) -> Option<Watermark> {
        lookup_watermark(self.watermarks@, stream)
    }

    /// Counters.
    pub closed spec fn counters(&self) -> SchedulerMetrics {
        self.metrics
    }

    /// Partition keys are strictly increasing and aligned with the queues,
    /// and every packet sits in the queue of its own partition.
    pub closed spec fn wf(&self) -> bool {
        &&& self.queue_keys@.len() == self.queues@.len()
        &&& forall|i: int, j: int|
            0 <= i < j < self.keys().len() ==> key_lt(#[trigger] self.keys()[i], #[trigger] self.keys()[j])
        &&& forall|i: int, k: int|
            0 <= i < self.queued().len() && 0 <= k < self.queued()[i].len() ==> packet_key(
                #[trigger] self.queued()[i][k],
            ) == self.keys()[i]
    }

    pub fn new() -> (s: Self)
        ensures
            s.wf(),
            s.keys() == Seq::<KeyView>::empty(),
            s.queued() == Seq::<Seq<WorkPacket>>::empty(),
            s.gpus() == Seq::<GPUResources>::empty(),
            s.late_tasks() == Seq::<LateArrivalTask>::empty(),
            forall|st: Seq<char>| s.watermark_of(st) is None,
            s.counters() == zero_metrics(),
    {
        let s = SpaceTimeScheduler {
            queue_keys: Vec::new(),
            queues: Vec::new(),
            gpu_resources: Vec::new(),
            watermarks: Vec::new(),
            late_arrival_queue: Vec::new(),
            corrections_queue: Vec::new(),
            metrics: SchedulerMetrics::default(),
        };
        assert(s.keys() =~= Seq::<KeyView>::empty());
        assert(s.queued() =~= Seq::<Seq<WorkPacket>>::empty());
        s
    }

    /// Registers an available GPU.
    pub fn register_gpu(&mut self, gpu: GPUResources)
        requires
            old(self).wf(),
        ensures
            final(self).wf(),
            final(self).gpus() == old(self).gpus().push(gpu),
            final(self).keys() == old(self).keys(),
            final(self).queued() == old(self).queued(),
            final(self).late_tasks() == old(self).late_tasks(),
            final(self).counters() == old(self).counters(),
            forall|st: Seq<char>| final(self).watermark_of(st) == old(self).watermark_of(st),
    {
        self.gpu_resources.push(gpu);
        assert(self.keys() == old(self).keys());
        assert(self.queued() == old(self).queued());
    }

    /// Healthy GPUs with at least `required_memory` bytes available, in
    /// registration order.
    pub fn available_gpus(&self, required_memory: u64) -> (v: Vec<GPUResources>)
        ensures
            v@ == self.gpus().filter(|g: GPUResources| gpu_fits(g, required_memory)),
    {
        let ghost pred = |g: GPUResources| gpu_fits(g, required_memory);
        let mut v: Vec<GPUResources> = Vec::new();
        let mut i: usize = 0;
        while i < self.gpu_resources.len()
            invariant
                i <= self.gpu_resources@.len(),
                v@ == self.gpu_resources@.take(i as int).filter(pred),
                pred == (|g: GPUResources| gpu_fits(g, required_memory)),
            decreases self.gpu_resources.len() - i,
        {
            let g = self.gpu_resources[i];
            assert(self.gpu_resources@.take(i + 1) =~= self.gpu_resources@.take(i as int).push(g));
            proof {
                self.gpu_resources@.take(i as int).lemma_filter_push(g, pred);
            }
            assert(pred(g) == (g.is_healthy && g.available_memory >= required_memory));
            if g.is_healthy && g.available_memory >= required_memory {
                v.push(g);
            }
            i = i + 1;
        }
        assert(self.gpu_resources@.take(self.gpu_resources@.len() as int) =~= self.gpu_resources@);
        v
    }

    /// Queues a packet under its partition, creating the partition if new.
    pub fn submit_work(&mut self, packet: WorkPacket)
        requires
            old(self).wf(),
        ensures
            final(self).wf(),
            final(self).gpus() == old(self).gpus(),
            final(self).late_tasks() == old(self).late_tasks(),
            final(self).counters() == old(self).counters(),
            forall|st: Seq<char>| final(self).watermark_of(st) == old(self).watermark_of(st),
            old(self).keys().contains(packet_key(packet)) ==> {
                let i = old(self).keys().index_of(packet_key(packet));
                &&& final(self).keys() == old(self).keys()
                &&& final(self).queued() == old(self).queued().update(
                    i,
                    old(self).queued()[i].push(packet),
                )
            },
            !old(self).keys().contains(packet_key(packet)) ==> exists|p: int|
                0 <= p <= old(self).keys().len() && final(self).keys() == old(self).keys().insert(
                    p,
                    packet_key(packet),
                ) && final(self).queued() == old(self).queued().insert(p, seq![packet]),
    {
        let key = QueueKey {
            region: packet.region,
            time_window: packet.time_window,
            agent: clone_agent(&packet.agent),
        };
        assert(key@ == packet_key(packet));
        let ghost keys0 = self.keys();
        let ghost q0 = self.queued();
        let n = self.queue_keys.len();
        let mut i: usize = 0;
        while i < n && key_lt_exec(&self.queue_keys[i], &key)
            invariant
                n == self.queue_keys@.len(),
                keys0 == self.keys(),
                i <= n,
                forall|j: int| 0 <= j < i ==> key_lt(#[trigger] keys0[j], key@),
            decreases n - i,
        {
            i = i + 1;
        }
        // Every earlier key is smaller, every later key is larger.
        proof {
            if i < n {
                assert(!key_lt(keys0[i as int], key@));
                lemma_key_lt_total(keys0[i as int], key@);
            }
            assert forall|j: int| i < j < n implies key_lt(key@, #[trigger] keys0[j]) by {
                assert(key_lt(keys0[i as int], keys0[j]));
                if keys0[i as int] != key@ {
                    lemma_key_lt_transitive(key@, keys0[i as int], keys0[j]);
                }
            }
        }
        if i < n && key_eq_exec(&self.queue_keys[i], &key) {
            proof {
                assert(keys0[i as int] == key@);
                assert forall|j: int| 0 <= j < n && j != i implies #[trigger] keys0[j] != key@ by {
                    if j < i {
                        lemma_key_lt_irreflexive(key@);
                    } else {
                        lemma_key_lt_irreflexive(key@);
                    }
                }
                assert(keys0.contains(key@));
                assert(keys0.index_of(key@) == i) by {
                    keys0.index_of_first_ensures(key@);
                }
            }
            let mut q = self.queues.remove(i);
            q.push_back(packet);
            self.queues.insert(i, q);
            proof {
                assert(self.queued() =~= q0.update(i as int, q0[i as int].push(packet)));
                assert(self.keys() == keys0);
            }
        } else {
            proof {
                assert forall|j: int| 0 <= j < n implies #[trigger] keys0[j] != key@ by {
                    lemma_key_lt_irreflexive(key@);
                }
                assert(!keys0.contains(key@));
            }
            self.queue_keys.insert(i, key);
            let mut q: VecDeque<WorkPacket> = VecDeque::new();
            q.push_back(packet);
            self.queues.insert(i, q);
            proof {
                assert(self.keys() =~= keys0.insert(i as int, packet_key(packet)));
                assert(self.queued() =~= q0.insert(i as int, seq![packet]));
                assert forall|a: int, b: int|
                    0 <= a < b < self.keys().len() implies key_lt(
                    #[trigger] self.keys()[a],
                    #[trigger] self.keys()[b],
                ) by {
                    if a < i && b == i {
                    } else if a < i && b > i {
                        assert(self.keys()[b] == keys0[b - 1]);
                    } else if a == i {
                        assert(self.keys()[b] == keys0[b - 1]);
                    } else if a > i {
                        assert(self.keys()[a] == keys0[a - 1]);
                        assert(self.keys()[b] == keys0[b - 1]);
                    }
                }
            }
        }
        proof {
            assert forall|a: int, k: int|
                0 <= a < self.queued().len() && 0 <= k < self.queued()[a].len() implies packet_key(
                #[trigger] self.queued()[a][k],
            ) == self.keys()[a] by {
                if a < i {
                    assert(self.queued()[a] == q0[a]);
                } else if a == i {
                    if k < self.queued()[a].len() - 1 {
                        assert(self.queued()[a][k] == q0[a][k]);
                    }
                } else {
                    if self.keys().len() == keys0.len() {
                        assert(self.queued()[a] == q0[a]);
                    } else {
                        assert(self.queued()[a] == q0[a - 1]);
                        assert(self.keys()[a] == keys0[a - 1]);
                    }
                }
            }
        }
    }

    /// Next batch of work for `gpu`. While late-arrival tasks are pending,
    /// the batch is up to `LATE_BATCH` fresh temporal-correction packets for
    /// `gpu` and the queues are left alone; otherwise it is the front packet
    /// of each non-empty partition queue, in partition order, up to
    /// `MAX_BATCH` packets, and those packets leave their queues.
    pub fn schedule_next_batch(&mut self, gpu: GPUDeviceId) -> (v: Vec<WorkPacket>)
        requires
            old(self).wf(),
        ensures
            final(self).wf(),
            final(self).gpus() == old(self).gpus(),
            final(self).late_tasks() == old(self).late_tasks(),
            final(self).counters() == old(self).counters(),
            final(self).keys() == old(self).keys(),
            forall|st: Seq<char>| final(self).watermark_of(st) == old(self).watermark_of(st),
            old(self).late_tasks().len() > 0 ==> {
                &&& final(self).queued() == old(self).queued()
                &&& v@.len() == if old(self).late_tasks().len() < LATE_BATCH {
                    old(self).late_tasks().len() as int
                } else {
                    LATE_BATCH as int
                }
                &&& forall|k: int| 0 <= k < v@.len() ==> {
                    let p = #[trigger] v@[k];
                    &&& p.target_gpu == Some(gpu)
                    &&& p.region is None
                    &&& p.time_window is None
                    &&& p.agent is None
                    &&& p.work_type is TemporalQuery
                    &&& p.priority == WorkPriority::LateArrivalCorrection
                    &&& p.created_at_us == 0
                    &&& (p.id >> 76u128) & 0xfu128 == 4
                }
            },
            old(self).late_tasks().len() == 0 ==> {
                &&& v@ == fronts(old(self).queued(), old(self).queued().len() as int)
                &&& final(self).queued() == after_batch(old(self).queued())
            },
    {
        if self.late_arrival_queue.len() > 0 {
            let take = if self.late_arrival_queue.len() < LATE_BATCH {
                self.late_arrival_queue.len()
            } else {
                LATE_BATCH
            };
            let mut v: Vec<WorkPacket> = Vec::new();
            let mut k: usize = 0;
            while k < take
                invariant
                    k <= take,
                    v@.len() == k,
                    forall|j: int| 0 <= j < v@.len() ==> {
                        let p = #[trigger] v@[j];
                        &&& p.target_gpu == Some(gpu)
                        &&& p.region is None
                        &&& p.time_window is None
                        &&& p.agent is None
                        &&& p.work_type is TemporalQuery
                        &&& p.priority == WorkPriority::LateArrivalCorrection
                        &&& p.created_at_us == 0
                        &&& (p.id >> 76u128) & 0xfu128 == 4
                    },
                decreases take - k,
            {
                let id = new_uuid_v4();
                v.push(
                    WorkPacket {
                        id,
                        target_gpu: Some(gpu),
                        region: None,
                        time_window: None,
                        agent: None,
                        work_type: WorkType::TemporalQuery,
                        priority: WorkPriority::LateArrivalCorrection,
                        created_at_us: 0,
                    },
                );
                k = k + 1;
            }
            return v;
        }
        let ghost q0 = self.queued();
        let ghost keys0 = self.keys();
        let n = self.queues.len();
        let mut work: Vec<WorkPacket> = Vec::new();
        let mut i: usize = 0;
        while i < n
            invariant
                n == q0.len(),
                n == self.queues@.len(),
                self.queue_keys@.len() == n,
                keys0 == self.keys(),
                i <= n,
                work@ == fronts(q0, i as int),
                forall|j: int| 0 <= j < i ==> #[trigger] self.queued()[j] == after_batch(q0)[j],
                forall|j: int| i <= j < n ==> #[trigger] self.queued()[j] == q0[j],
                self.gpu_resources == old(self).gpu_resources,
                self.late_arrival_queue == old(self).late_arrival_queue,
                self.watermarks == old(self).watermarks,
                self.metrics == old(self).metrics,
            decreases n - i,
        {
            proof { lemma_fronts_bounded(q0, i as int); }
            if work.len() < MAX_BATCH && self.queues[i].len() > 0 {
                let ghost before = self.queued();
                let mut q = self.queues.remove(i);
                let front = q.pop_front();
                let p = front.unwrap();
                self.queues.insert(i, q);
                work.push(p);
                proof {
                    assert(self.queued() =~= before.update(i as int, before[i as int].drop_first()));
                }
            } else {
                assert(self.queued()[i as int] == after_batch(q0)[i as int]);
            }
            i = i + 1;
        }
        proof {
            assert(self.queued() =~= after_batch(q0));
            assert forall|a: int, k: int|
                0 <= a < self.queued().len() && 0 <= k < self.queued()[a].len() implies packet_key(
                #[trigger] self.queued()[a][k],
            ) == self.keys()[a] by {
                if taken_from(q0, a) {
                    assert(self.queued()[a][k] == q0[a][k + 1]);
                } else {
                    assert(self.queued()[a][k] == q0[a][k]);
                }
            }
        }
        work
    }

    /// Advances the watermark of `stream_id` to `max_event_time_us`,
    /// stamped `now_us`.
    pub fn advance_watermark_at(&mut self, stream_id: String, max_event_time_us: i64, now_us: i64)
        requires
            old(self).wf(),
        ensures
            final(self).wf(),
            final(self).watermark_of(stream_id@) == Some(
                Watermark { max_event_time_us, updated_at_us: now_us },
            ),
            forall|st: Seq<char>|
                st != stream_id@ ==> final(self).watermark_of(st) == old(self).watermark_of(st),
            final(self).gpus() == old(self).gpus(),
            final(self).keys() == old(self).keys(),
            final(self).queued() == old(self).queued(),
            final(self).late_tasks() == old(self).late_tasks(),
            final(self).counters() == old(self).counters(),
    {
        let now = now_us;
        let ghost stream = stream_id@;
        let mut i: usize = 0;
        while i < self.watermarks.len() && !str_eq(self.watermarks[i].0.as_str(), stream_id.as_str())
            invariant
                i <= self.watermarks@.len(),
                self.watermarks == old(self).watermarks,
                stream == stream_id@,
            decreases self.watermarks.len() - i,
        {
            i = i + 1;
        }
        if i < self.watermarks.len() {
            let ghost before = self.watermarks@;
            let _ = self.watermarks.remove(i);
            proof {
                assert forall|st: Seq<char>| st != stream implies lookup_watermark(
                    self.watermarks@,
                    st,
                ) == lookup_watermark(before, st) by {
                    assert(before[i as int].0@ == stream);
                    lemma_lookup_remove_other(before, i as int, st);
                }
            }
        }
        let ghost mid = self.watermarks@;
        self.watermarks.push((stream_id, Watermark { max_event_time_us, updated_at_us: now }));
        proof {
            assert(self.watermarks@.drop_last() =~= mid);
        }
        assert(self.keys() == old(self).keys());
        assert(self.queued() == old(self).queued());
    }

    /// Advances the watermark of `stream_id` to `max_event_time_us`, as
    /// `advance_watermark_at` does, stamped with the system clock's reading.
    pub fn advance_watermark(&mut self, stream_id: String, max_event_time_us: i64)
        requires
            old(self).wf(),
        ensures
            final(self).wf(),
            final(self).watermark_of(stream_id@) matches Some(w) && w.max_event_time_us
                == max_event_time_us,
            forall|st: Seq<char>|
                st != stream_id@ ==> final(self).watermark_of(st) == old(self).watermark_of(st),
            final(self).gpus() == old(self).gpus(),
            final(self).keys() == old(self).keys(),
            final(self).queued() == old(self).queued(),
            final(self).late_tasks() == old(self).late_tasks(),
            final(self).counters() == old(self).counters(),
    {
        let now = now_micros();
        self.advance_watermark_at(stream_id, max_event_time_us, now);
    }

    /// Current watermark of a stream, if it has one.
    pub fn watermark(&self, stream_id: &str) -> (w: Option<Watermark>)
        ensures
            w == self.watermark_of(stream_id@),
    {
        let mut i = self.watermarks.len();
        while i > 0
            invariant
                i <= self.watermarks@.len(),
                lookup_watermark(self.watermarks@, stream_id@) == lookup_watermark(
                    self.watermarks@.take(i as int),
                    stream_id@,
                ),
            decreases i,
        {
            let ghost pre = self.watermarks@.take(i as int);
            assert(pre.drop_last() =~= self.watermarks@.take(i - 1));
            if str_eq(self.watermarks[i - 1].0.as_str(), stream_id) {
                return Some(self.watermarks[i - 1].1);
            }
            i = i - 1;
        }
        None
    }

    /// Queues a late-arrival correction task and counts it.
    pub fn handle_late_arrival(&mut self, task: LateArrivalTask)
        requires
            old(self).wf(),
            old(self).counters().late_arrivals_handled < u64::MAX,
        ensures
            final(self).wf(),
            final(self).late_tasks() == old(self).late_tasks().push(task),
            final(self).counters() == (SchedulerMetrics {
                late_arrivals_handled: (old(self).counters().late_arrivals_handled + 1) as u64,
                ..old(self).counters()
            }),
            final(self).gpus() == old(self).gpus(),
            final(self).keys() == old(self).keys(),
            final(self).queued() == old(self).queued(),
            forall|st: Seq<char>| final(self).watermark_of(st) == old(self).watermark_of(st),
    {
        self.late_arrival_queue.push(task);
        self.metrics.late_arrivals_handled = self.metrics.late_arrivals_handled + 1;
        assert(self.keys() == old(self).keys());
        assert(self.queued() == old(self).queued());
    }

    /// Current counters.
    pub fn metrics(&self) -> (m: SchedulerMetrics)
        ensures
            m == self.counters(),
    {
        self.metrics
    }

    /// Counts a completed packet.
    pub fn mark_completed(&mut self, _packet_id: u128)
        requires
            old(self).wf(),
            old(self).counters().completed_work_packets < u64::MAX,
        ensures
            final(self).wf(),
            final(self).counters() == (SchedulerMetrics {
                completed_work_packets: (old(self).counters().completed_work_packets + 1) as u64,
                ..old(self).counters()
            }),
            final(self).gpus() == old(self).gpus(),
            final(self).keys() == old(self).keys(),
            final(self).queued() == old(self).queued(),
            final(self).late_tasks() == old(self).late_tasks(),
            forall|st: Seq<char>| final(self).watermark_of(st) == old(self).watermark_of(st),
    {
        self.metrics.completed_work_packets = self.metrics.completed_work_packets + 1;
        assert(self.keys() == old(self).keys());
        assert(self.queued() == old(self).queued());
    }

    /// Counts a failed packet.
    pub fn mark_failed(&mut self, _packet_id: u128)
        requires
            old(self).wf(),
            old(self).counters().failed_work_packets < u64::MAX,
        ensures
            final(self).wf(),
            final(self).counters() == (SchedulerMetrics {
                failed_work_packets: (old(self).counters().failed_work_packets + 1) as u64,
                ..old(self).counters()
            }),
            final(self).gpus() == old(self).gpus(),
            final(self).keys() == old(self).keys(),
            final(self).queued() == old(self).queued(),
            final(self).late_tasks() == old(self).late_tasks(),
            forall|st: Seq<char>| final(self).watermark_of(st) == old(self).watermark_of(st),
    {
        self.metrics.failed_work_packets = self.metrics.failed_work_packets + 1;
        assert(self.keys() == old(self).keys());
        assert(self.queued() == old(self).queued());
    }
}

} // verus!
