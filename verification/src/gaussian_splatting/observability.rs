//! Tracing records for world-model operations and the bounded logs that
//! keep the most recent of them.

use vstd::prelude::*;
use std::collections::{HashMap, VecDeque};
use crate::text::{owned, str_eq};
use crate::sys::{now_micros, new_uuid_v4_string, is_hyphenated_v4};

verus! {

/// Observability context of one operation.
#[derive(Debug)]
pub struct ObsContext {
    /// Trace ID (correlates operations across services)
    pub trace_id: String,
    /// Span ID (unique to this operation)
    pub span_id: String,
    /// Operation name (e.g. "fusion", "decay", "query_radius")
    pub operation: String,
    /// Bot performing the operation
    pub bot_id: Option<String>,
    /// When the operation started (microseconds since epoch)
    pub start_time_us: i64,
}

impl ObsContext {
    /// A context for `operation` with the given ids, started at `start_time_us`.
    pub fn started_at(
        operation: &str,
        bot_id: Option<String>,
        trace_id: String,
        span_id: String,
        start_time_us: i64,
    ) -> (c: Self)
        ensures
            c.operation@ == operation@,
            c.bot_id == bot_id,
            c.trace_id == trace_id,
            c.span_id == span_id,
            c.start_time_us == start_time_us,
    {
        ObsContext { trace_id, span_id, operation: owned(operation), bot_id, start_time_us }
    }

    /// A context with fresh random trace and span ids (hyphenated lowercase
    /// version-4 UUIDs), started at the system clock's reading.
    pub fn new(operation: &str, bot_id: Option<String>) -> (c: Self)
        ensures
            c.operation@ == operation@,
            c.bot_id == bot_id,
            is_hyphenated_v4(c.trace_id@),
            is_hyphenated_v4(c.span_id@),
    {
        let now = now_micros();
        let trace_id = new_uuid_v4_string();
        let span_id = new_uuid_v4_string();
        Self::started_at(operation, bot_id, trace_id, span_id, now)
    }
}

fn clone_opt_string(s: &Option<String>) -> (r: Option<String>)
    ensures
        r == *s,
{
    match s {
        Some(x) => Some(x.clone()),
        None => None,
    }
}

impl Clone for ObsContext {
    fn clone(&self) -> (c: Self)
        ensures
            c == *self,
    {
        ObsContext {
            trace_id: self.trace_id.clone(),
            span_id: self.span_id.clone(),
            operation: self.operation.clone(),
            bot_id: clone_opt_string(&self.bot_id),
            start_time_us: self.start_time_us,
        }
    }
}

/// Structured log event.
#[derive(Debug)]
pub struct ObsEvent {
    pub timestamp_us: i64,
    pub trace_id: String,
    pub span_id: String,
    /// "trace", "debug", "info", "warn" or "error"
    pub level: String,
    pub message: String,
    pub operation: String,
    pub bot_id: Option<String>,
    pub details: HashMap<String, String>,
}

impl ObsEvent {
    /// An event in the context `ctx` at time `timestamp_us`, with no details.
    pub fn at(ctx: &ObsContext, level: &str, message: &str, timestamp_us: i64) -> (e: Self)
        ensures
            e.timestamp_us == timestamp_us,
            e.trace_id == ctx.trace_id,
            e.span_id == ctx.span_id,
            e.operation == ctx.operation,
            e.bot_id == ctx.bot_id,
            e.level@ == level@,
            e.message@ == message@,
            e.details@ == Map::<String, String>::empty(),
    {
        ObsEvent {
            timestamp_us,
            trace_id: ctx.trace_id.clone(),
            span_id: ctx.span_id.clone(),
            level: owned(level),
            message: owned(message),
            operation: ctx.operation.clone(),
            bot_id: clone_opt_string(&ctx.bot_id),
            details: HashMap::new(),
        }
    }

    /// An event in the context `ctx`, stamped with the system clock's
    /// reading (what `at` gives for that reading), with no details.
    pub fn new(ctx: &ObsContext, level: &str, message: &str) -> (e: Self)
        ensures
            e.trace_id == ctx.trace_id,
            e.span_id == ctx.span_id,
            e.operation == ctx.operation,
            e.bot_id == ctx.bot_id,
            e.level@ == level@,
            e.message@ == message@,
            e.details@ == Map::<String, String>::empty(),
    {
        let now = now_micros();
        Self::at(ctx, level, message, now)
    }
}

/// The last `limit` items of `s` (all of them when there are fewer), in
/// their original order.
pub open spec fn last_n<T>(s: Seq<T>, limit: int) -> Seq<T> {
    if s.len() <= limit {
        s
    } else {
        s.skip(s.len() - limit)
    }
}

/// The values behind a sequence of references.
pub open spec fn deref_all<T>(s: Seq<&T>) -> Seq<T> {
    s.map_values(|r: &T| *r)
}

/// Appends `item` to a history and, when that takes it past `max` entries,
/// drops the oldest entry (position histories of tracked objects).
pub fn push_bounded<T>(v: &mut Vec<T>, item: T, max: usize)
    ensures
        old(v)@.len() + 1 > max ==> final(v)@ == old(v)@.push(item).drop_first(),
        old(v)@.len() + 1 <= max ==> final(v)@ == old(v)@.push(item),
{
    v.push(item);
    if v.len() > max {
        let _ = v.remove(0);
        assert(v@ =~= old(v)@.push(item).drop_first());
    }
}

/// A log that keeps only its most recent entries.
pub struct BoundedLog<T> {
    entries: VecDeque<T>,
    max_entries: usize,
}

impl<T> BoundedLog<T> {
    /// Entries kept, oldest first.
    pub closed spec fn items(&self) -> Seq<T> {
        self.entries@
    }

    /// Most entries kept.
    pub closed spec fn bound(&self) -> usize {
        self.max_entries
    }

    /// Never more entries than the bound.
    pub closed spec fn wf(&self) -> bool {
        self.entries@.len() <= self.max_entries
    }

    /// An empty log keeping at most `max_entries` entries.
    pub fn new(max_entries: usize) -> (l: Self)
        ensures
            l.wf(),
            l.items() == Seq::<T>::empty(),
            l.bound() == max_entries,
    {
        BoundedLog { entries: VecDeque::new(), max_entries }
    }

    /// Appends an entry, dropping the oldest one when the bound is exceeded.
    pub fn record(&mut self, item: T)
        requires
            old(self).wf(),
        ensures
            final(self).wf(),
            final(self).bound() == old(self).bound(),
            final(self).items() == last_n(old(self).items().push(item), old(self).bound() as int),
    {
        self.entries.push_back(item);
        if self.entries.len() > self.max_entries {
            let _ = self.entries.pop_front();
            assert(self.entries@ =~= old(self).entries@.push(item).skip(1));
        }
    }

    /// The last `limit` entries, oldest first.
    pub fn recent(&self, limit: usize) -> (v: Vec<&T>)
        ensures
            deref_all(v@) == last_n(self.items(), limit as int),
    {
        let n = self.entries.len();
        let start = if n > limit { n - limit } else { 0 };
        let mut v: Vec<&T> = Vec::new();
        let mut i = start;
        while i < n
            invariant
                n == self.entries@.len(),
                start <= i <= n,
                deref_all(v@) == self.entries@.subrange(start as int, i as int),
            decreases n - i,
        {
            let ghost prev = v@;
            v.push(&self.entries[i]);
            assert(deref_all(v@) =~= deref_all(prev).push(self.entries@[i as int]));
            assert(self.entries@.subrange(start as int, i + 1) =~= self.entries@.subrange(start as int, i as int).push(self.entries@[i as int]));
            i = i + 1;
        }
        assert(last_n(self.entries@, limit as int) =~= self.entries@.subrange(start as int, n as int));
        v
    }

    /// The last `limit` entries, newest first.
    pub fn latest_first(&self, limit: usize) -> (v: Vec<&T>)
        ensures
            deref_all(v@) == last_n(self.items(), limit as int).reverse(),
    {
        let n = self.entries.len();
        let stop = if n > limit { n - limit } else { 0 };
        let mut v: Vec<&T> = Vec::new();
        let mut i = n;
        while i > stop
            invariant
                n == self.entries@.len(),
                stop <= i <= n,
                deref_all(v@) == self.entries@.subrange(i as int, n as int).reverse(),
            decreases i,
        {
            let ghost prev = v@;
            v.push(&self.entries[i - 1]);
            assert(deref_all(v@) =~= deref_all(prev).push(self.entries@[i - 1]));
            assert(self.entries@.subrange(i - 1, n as int).reverse() =~= self.entries@.subrange(i as int, n as int).reverse().push(self.entries@[i - 1]));
            i = i - 1;
        }
        assert(last_n(self.entries@, limit as int) =~= self.entries@.subrange(stop as int, n as int));
        v
    }

    /// Number of entries kept.
    pub fn len(&self) -> (n: usize)
        ensures
            n == self.items().len(),
    {
        self.entries.len()
    }

    /// Whether the log is empty.
    pub fn is_empty(&self) -> (b: bool)
        ensures
            b == (self.items().len() == 0),
    {
        self.entries.len() == 0
    }

    /// Drops every entry.
    pub fn clear(&mut self)
        ensures
            final(self).wf(),
            final(self).items() == Seq::<T>::empty(),
            final(self).bound() == old(self).bound(),
    {
        self.entries.clear();
    }
}

/// Recording keeps the log within its bound, and the newest entry is
/// always the one just recorded (when the bound allows any entry).
pub proof fn lemma_bounded_log_record<T>(before: Seq<T>, item: T, bound: int)
    requires
        before.len() <= bound,
        bound > 0,
    ensures
        last_n(before.push(item), bound).len() <= bound,
        last_n(before.push(item), bound).last() == item,
        last_n(before.push(item), bound).len() == if before.len() < bound {
            before.len() + 1int
        } else {
            bound
        },
{
}

} // verus!

verus! {

/// Operation counters of the splat world model. The running latency and
/// result-size averages are floating point and kept beside these by the
/// tracer that owns them.
#[derive(Clone, Copy, Debug, PartialEq, Eq, Structural)]
pub struct GaussianMetrics {
    /// Observations ingested
    pub observations_ingested: u64,
    /// Fusions that merged into an existing splat
    pub fusions_successful: u64,
    /// Fusions that created a new splat instead
    pub fusions_failed: u64,
    /// Maximum fusion latency observed
    pub fusion_latency_us_max: u64,
    /// Temporal decay operations
    pub decay_operations: u64,
    /// Splats pruned (confidence fell below threshold)
    pub splats_pruned: u64,
    /// Radius queries executed
    pub queries_radius: u64,
    /// Uncertainty calculations
    pub uncertainty_calcs: u64,
    /// Change events detected
    pub change_events: u64,
    /// Object moved events
    pub events_object_moved: u64,
    /// Object appeared events
    pub events_object_appeared: u64,
    /// Object disappeared events
    pub events_object_disappeared: u64,
}

/// Counters of a fresh tracer.
pub open spec fn zero_metrics() -> GaussianMetrics {
    GaussianMetrics {
        observations_ingested: 0,
        fusions_successful: 0,
        fusions_failed: 0,
        fusion_latency_us_max: 0,
        decay_operations: 0,
        splats_pruned: 0,
        queries_radius: 0,
        uncertainty_calcs: 0,
        change_events: 0,
        events_object_moved: 0,
        events_object_appeared: 0,
        events_object_disappeared: 0,
    }
}

impl Default for GaussianMetrics {
    fn default() -> (m: Self)
        ensures
            m == zero_metrics(),
    {
        GaussianMetrics {
            observations_ingested: 0,
            fusions_successful: 0,
            fusions_failed: 0,
            fusion_latency_us_max: 0,
            decay_operations: 0,
            splats_pruned: 0,
            queries_radius: 0,
            uncertainty_calcs: 0,
            change_events: 0,
            events_object_moved: 0,
            events_object_appeared: 0,
            events_object_disappeared: 0,
        }
    }
}

/// The kinds of change event counted separately.
pub open spec fn change_kind_moved() -> Seq<char> {
    "object_moved"@
}

/// See `change_kind_moved`.
pub open spec fn change_kind_appeared() -> Seq<char> {
    "object_appeared"@
}

/// See `change_kind_moved`.
pub open spec fn change_kind_disappeared() -> Seq<char> {
    "object_disappeared"@
}

impl GaussianMetrics {
    /// Every typed change event is also a change event.
    pub open spec fn consistent(&self) -> bool {
        self.events_object_moved + self.events_object_appeared + self.events_object_disappeared
            <= self.change_events
    }

    /// Counts one ingested observation.
    pub fn record_observation(&mut self)
        requires
            old(self).observations_ingested < u64::MAX,
        ensures
            *final(self) == (GaussianMetrics {
                observations_ingested: (old(self).observations_ingested + 1) as u64,
                ..*old(self)
            }),
    {
        self.observations_ingested = self.observations_ingested + 1;
    }

    /// Counts one successful fusion and keeps the largest latency seen.
    pub fn record_fusion(&mut self, latency_us: u64)
        requires
            old(self).fusions_successful < u64::MAX,
        ensures
            *final(self) == (GaussianMetrics {
                fusions_successful: (old(self).fusions_successful + 1) as u64,
                fusion_latency_us_max: if latency_us > old(self).fusion_latency_us_max {
                    latency_us
                } else {
                    old(self).fusion_latency_us_max
                },
                ..*old(self)
            }),
    {
        self.fusions_successful = self.fusions_successful + 1;
        if latency_us > self.fusion_latency_us_max {
            self.fusion_latency_us_max = latency_us;
        }
    }

    /// Counts one fusion that created a new splat.
    pub fn record_new_splat(&mut self)
        requires
            old(self).fusions_failed < u64::MAX,
        ensures
            *final(self) == (GaussianMetrics {
                fusions_failed: (old(self).fusions_failed + 1) as u64,
                ..*old(self)
            }),
    {
        self.fusions_failed = self.fusions_failed + 1;
    }

    /// Counts one decay pass and the splats it pruned.
    pub fn record_decay(&mut self, latency_us: u64, pruned: u32)
        requires
            old(self).decay_operations < u64::MAX,
            old(self).splats_pruned + pruned <= u64::MAX,
        ensures
            *final(self) == (GaussianMetrics {
                decay_operations: (old(self).decay_operations + 1) as u64,
                splats_pruned: (old(self).splats_pruned + pruned) as u64,
                ..*old(self)
            }),
    {
        self.decay_operations = self.decay_operations + 1;
        self.splats_pruned = self.splats_pruned + pruned as u64;
    }

    /// Counts one radius query.
    pub fn record_query(&mut self, latency_us: u64, result_count: usize)
        requires
            old(self).queries_radius < u64::MAX,
        ensures
            *final(self) == (GaussianMetrics {
                queries_radius: (old(self).queries_radius + 1) as u64,
                ..*old(self)
            }),
    {
        self.queries_radius = self.queries_radius + 1;
    }

    /// Counts one change event, and its kind when it is one of the three
    /// tracked kinds.
    pub fn record_change_event(&mut self, event_type: &str)
        requires
            old(self).change_events < u64::MAX,
            old(self).events_object_moved < u64::MAX,
            old(self).events_object_appeared < u64::MAX,
            old(self).events_object_disappeared < u64::MAX,
        ensures
            final(self).change_events == old(self).change_events + 1,
            final(self).events_object_moved == old(self).events_object_moved + if event_type@
                == change_kind_moved() {
                1int
            } else {
                0int
            },
            final(self).events_object_appeared == old(self).events_object_appeared + if event_type@
                == change_kind_appeared() {
                1int
            } else {
                0int
            },
            final(self).events_object_disappeared == old(self).events_object_disappeared + if event_type@
                == change_kind_disappeared() {
                1int
            } else {
                0int
            },
            *final(self) == (GaussianMetrics {
                change_events: final(self).change_events,
                events_object_moved: final(self).events_object_moved,
                events_object_appeared: final(self).events_object_appeared,
                events_object_disappeared: final(self).events_object_disappeared,
                ..*old(self)
            }),
    {
        self.change_events = self.change_events + 1;
        proof {
            reveal_strlit("object_moved");
            reveal_strlit("object_appeared");
            reveal_strlit("object_disappeared");
            assert(change_kind_moved()[7] != change_kind_appeared()[7]);
            assert(change_kind_moved()[7] != change_kind_disappeared()[7]);
            assert(change_kind_appeared()[7] != change_kind_disappeared()[7]);
        }
        if str_eq(event_type, "object_moved") {
            self.events_object_moved = self.events_object_moved + 1;
        } else if str_eq(event_type, "object_appeared") {
            self.events_object_appeared = self.events_object_appeared + 1;
        } else if str_eq(event_type, "object_disappeared") {
            self.events_object_disappeared = self.events_object_disappeared + 1;
        }
    }
}

/// Recording change events keeps the typed counts within the total: a
/// change event of any type increases the total by one and at most one
/// typed count by one.
pub proof fn lemma_change_counts_consistent(before: GaussianMetrics, after: GaussianMetrics, kind: Seq<char>)
    requires
        before.consistent(),
        after.change_events == before.change_events + 1,
        after.events_object_moved == before.events_object_moved + if kind == change_kind_moved() {
            1int
        } else {
            0int
        },
        after.events_object_appeared == before.events_object_appeared + if kind
            == change_kind_appeared() {
            1int
        } else {
            0int
        },
        after.events_object_disappeared == before.events_object_disappeared + if kind
            == change_kind_disappeared() {
            1int
        } else {
            0int
        },
    ensures
        after.consistent(),
{
    reveal_strlit("object_moved");
    reveal_strlit("object_appeared");
    reveal_strlit("object_disappeared");
    assert(change_kind_moved()[7] != change_kind_appeared()[7]);
    assert(change_kind_moved()[7] != change_kind_disappeared()[7]);
    assert(change_kind_appeared()[7] != change_kind_disappeared()[7]);
}

} // verus!
