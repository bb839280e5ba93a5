//! Late-arrival observation reprocessing.
//!
//! An observation is late when its event time lies before the stream
//! watermark (the largest event time seen so far). Late observations mark
//! spatial cells for cache invalidation, and queries may be marked for
//! reprocessing.

use vstd::prelude::*;
use crate::types::{Observation, Error, Result, trunc_div};
use crate::text::{views, contains_str, clone_strings};

verus! {

broadcast use vstd::seq_lib::group_seq_properties;

/// Label of the `i`-th invalidated cell: `"cell_"` followed by the digit `i`.
pub open spec fn cell_label(i: int) -> Seq<char> {
    "cell_"@ + seq![(48 + i) as char]
}

/// Whether `s` is the label of one of the ten cells.
pub open spec fn is_cell_label(s: Seq<char>) -> bool {
    exists|i: int| 0 <= i < 10 && s == cell_label(i)
}

/// Number of cells a late observation invalidates: about one per second of
/// latency, at least one and at most ten.
pub open spec fn affected_cell_count(latency_us: int) -> int {
    let secs = trunc_div(latency_us, 1_000_000);
    if secs > 10 {
        10
    } else if secs < 1 {
        1
    } else {
        secs
    }
}

/// The cells invalidated by an observation of the given latency, in order.
pub open spec fn affected_cells(latency_us: int) -> Seq<Seq<char>> {
    Seq::new(affected_cell_count(latency_us) as nat, |i: int| cell_label(i))
}

/// A late observation invalidates one cell per whole second of latency, never
/// fewer than one and never more than ten, and the `i`-th invalidated cell is
/// `"cell_i"`.
pub proof fn lemma_one_cell_per_second(latency_us: int)
    requires
        latency_us > 0,
    ensures
        latency_us < 1_000_000 ==> affected_cells(latency_us).len() == 1,
        latency_us >= 11_000_000 ==> affected_cells(latency_us).len() == 10,
        1_000_000 <= latency_us < 11_000_000 ==> affected_cells(latency_us).len() == latency_us
            / 1_000_000,
        forall|i: int|
            0 <= i < affected_cells(latency_us).len() ==> #[trigger] affected_cells(latency_us)[i]
                == "cell_"@ + seq![(48 + i) as char],
{
    let secs = latency_us / 1_000_000;
    assert(affected_cell_count(latency_us) == if secs > 10 { 10 } else if secs < 1 { 1 } else { secs });
    if latency_us >= 11_000_000 {
        assert(latency_us / 1_000_000 >= 11) by (nonlinear_arith)
            requires
                latency_us >= 11_000_000,
        ;
    }
    if 1_000_000 <= latency_us < 11_000_000 {
        assert(1 <= latency_us / 1_000_000 <= 10) by (nonlinear_arith)
            requires
                1_000_000 <= latency_us < 11_000_000,
        ;
    }
    if latency_us < 1_000_000 {
        assert(latency_us / 1_000_000 == 0) by (nonlinear_arith)
            requires
                0 < latency_us < 1_000_000,
        ;
    }
}

/// Reprocessing pipeline for observations that arrive after the watermark.
pub struct LateArrivalProcessor {
    /// Cells awaiting cache invalidation (no name occurs twice).
    affected_regions: Vec<String>,
    /// Queries awaiting reprocessing (no id occurs twice).
    affected_queries: Vec<String>,
    /// Time of the last completed reprocessing, in microseconds.
    last_reprocess_time_us: i64,
}

impl LateArrivalProcessor {
    /// The set of cells awaiting invalidation.
    pub closed spec fn regions(&self) -> Set<Seq<char>> {
        views(self.affected_regions@).to_set()
    }

    /// The set of queries awaiting reprocessing.
    pub closed spec fn queries(&self) -> Set<Seq<char>> {
        views(self.affected_queries@).to_set()
    }

    /// Time of the last completed reprocessing.
    pub closed spec fn last_time(&self) -> i64 {
        self.last_reprocess_time_us
    }

    /// Internal consistency: neither list holds a name twice, and every
    /// region is one of the ten cell labels.
    pub closed spec fn wf(&self) -> bool {
        &&& views(self.affected_regions@).no_duplicates()
        &&& views(self.affected_queries@).no_duplicates()
        &&& forall|s: Seq<char>| #[trigger] self.regions().contains(s) ==> is_cell_label(s)
    }

    pub fn new() -> (p: Self)
        ensures
            p.wf(),
            p.regions() == Set::<Seq<char>>::empty(),
            p.queries() == Set::<Seq<char>>::empty(),
            p.last_time() == 0,
    {
        let p = LateArrivalProcessor {
            affected_regions: Vec::new(),
            affected_queries: Vec::new(),
            last_reprocess_time_us: 0,
        };
        assert(views(p.affected_regions@) =~= Seq::<Seq<char>>::empty());
        assert(views(p.affected_queries@) =~= Seq::<Seq<char>>::empty());
        assert(p.regions() =~= Set::<Seq<char>>::empty());
        assert(p.queries() =~= Set::<Seq<char>>::empty());
        p
    }

    /// Processes a late arrival and returns the cells that need cache
    /// invalidation; an observation that is not late is refused.
    pub fn process_late_arrival(&mut self, obs: &Observation, watermark_us: i64) -> (r: Result<
        Vec<String>,
    >)
        requires
            old(self).wf(),
            watermark_us - obs.temporal.event_time_us <= i64::MAX,
        ensures
            final(self).wf(),
            final(self).queries() == old(self).queries(),
            final(self).last_time() == old(self).last_time(),
            obs.temporal.event_time_us >= watermark_us ==> (r is Err && r->Err_0 is TimeError
                && final(self).regions() == old(self).regions()),
            obs.temporal.event_time_us < watermark_us ==> {
                let cells = affected_cells(watermark_us - obs.temporal.event_time_us);
                &&& r is Ok
                &&& views(r->Ok_0@) == cells
                &&& final(self).regions() == old(self).regions() + cells.to_set()
            },
            obs.temporal.event_time_us < watermark_us ==> {
                let latency = watermark_us - obs.temporal.event_time_us;
                &&& (latency < 1_000_000 ==> r->Ok_0@.len() == 1)
                &&& (1_000_000 <= latency < 11_000_000 ==> r->Ok_0@.len() == latency / 1_000_000)
                &&& (latency >= 11_000_000 ==> r->Ok_0@.len() == 10)
            },
    {
        if obs.temporal.event_time_us >= watermark_us {
            return Err(Error::TimeError(
                "Observation is not late (event_time >= watermark)".to_string(),
            ));
        }
        let latency_us = watermark_us - obs.temporal.event_time_us;
        let affected = match self.compute_affected_cells(latency_us) {
            Ok(cells) => cells,
            Err(e) => { return Err(e); },
        };
        let ghost cells = views(affected@);
        let ghost start = views(self.affected_regions@);
        let mut i: usize = 0;
        while i < affected.len()
            invariant
                0 <= i <= affected.len(),
                cells == views(affected@),
                cells == affected_cells(latency_us as int),
                views(self.affected_regions@).no_duplicates(),
                views(self.affected_regions@).to_set() == start.to_set() + cells.take(i as int).to_set(),
                self.affected_queries == old(self).affected_queries,
                self.last_reprocess_time_us == old(self).last_reprocess_time_us,
            decreases affected.len() - i,
        {
            let present = contains_str(&self.affected_regions, affected[i].as_str());
            let ghost before = views(self.affected_regions@);
            if !present {
                self.affected_regions.push(affected[i].clone());
                assert(views(self.affected_regions@) =~= before.push(cells[i as int]));
                proof { lemma_push_no_dup(before, cells[i as int]); }
                assert(views(self.affected_regions@).to_set() =~= before.to_set().insert(cells[i as int]));
            } else {
                assert(before.to_set().contains(cells[i as int]));
                assert(before.to_set().insert(cells[i as int]) =~= before.to_set());
            }
            assert(cells.take(i + 1) =~= cells.take(i as int).push(cells[i as int]));
            assert(cells.take(i as int).push(cells[i as int]).to_set()
                =~= cells.take(i as int).to_set().insert(cells[i as int]));
            assert(views(self.affected_regions@).to_set() =~= start.to_set() + cells.take(i + 1).to_set());
            i = i + 1;
        }
        assert(cells.take(affected.len() as int) =~= cells);
        proof {
            lemma_one_cell_per_second(latency_us as int);
            assert(views(affected@).len() == affected@.len());
            assert forall|s: Seq<char>| #[trigger] self.regions().contains(s) implies
                is_cell_label(s) by {
                if !old(self).regions().contains(s) {
                    let k = choose|k: int| 0 <= k < cells.len() && cells[k] == s;
                    assert(s == cell_label(k));
                }
            }
        }
        Ok(affected)
    }

    /// The cells affected by a late arrival of the given (positive) latency.
    fn compute_affected_cells(&self, latency_us: i64) -> (r: Result<Vec<String>>)
        requires
            latency_us > 0,
        ensures
            r is Ok,
            views(r->Ok_0@) == affected_cells(latency_us as int),
    {
        let mut affected: Vec<String> = Vec::new();
        let secs = latency_us / 1_000_000;
        let num_cells: usize = if secs > 10 {
            10
        } else if secs < 1 {
            1
        } else {
            secs as usize
        };
        let mut i: usize = 0;
        while i < num_cells
            invariant
                num_cells == affected_cell_count(latency_us as int),
                1 <= num_cells <= 10,
                i <= num_cells,
                views(affected@) == affected_cells(latency_us as int).take(i as int),
            decreases num_cells - i,
        {
            let name = cell_name(i);
            let ghost prev = affected@;
            affected.push(name);
            assert(views(affected@) =~= views(prev).push(cell_label(i as int)));
            assert(affected_cells(latency_us as int)[i as int] == cell_label(i as int));
            assert(views(affected@) =~= affected_cells(latency_us as int).take(i + 1));
            i = i + 1;
        }
        assert(affected_cells(latency_us as int).take(num_cells as int)
            =~= affected_cells(latency_us as int));
        Ok(affected)
    }

    /// Marks a query as needing reprocessing.
    pub fn mark_query_affected(&mut self, query_id: String)
        requires
            old(self).wf(),
        ensures
            final(self).wf(),
            final(self).queries() == old(self).queries().insert(query_id@),
            final(self).regions() == old(self).regions(),
            final(self).last_time() == old(self).last_time(),
    {
        let present = contains_str(&self.affected_queries, query_id.as_str());
        let ghost before = views(self.affected_queries@);
        if !present {
            self.affected_queries.push(query_id);
            assert(views(self.affected_queries@) =~= before.push(query_id@));
            proof { lemma_push_no_dup(before, query_id@); }
            assert(views(self.affected_queries@).to_set() =~= before.to_set().insert(query_id@));
        } else {
            assert(before.to_set().insert(query_id@) =~= before.to_set());
        }
        assert(self.regions() == old(self).regions());
    }

    /// The cells awaiting cache invalidation, each once.
    pub fn get_affected_regions(&self) -> (r: Vec<String>)
        requires
            self.wf(),
        ensures
            views(r@).no_duplicates(),
            views(r@).to_set() == self.regions(),
    {
        clone_strings(&self.affected_regions)
    }

    /// The queries awaiting reprocessing, each once.
    pub fn get_affected_queries(&self) -> (r: Vec<String>)
        requires
            self.wf(),
        ensures
            views(r@).no_duplicates(),
            views(r@).to_set() == self.queries(),
    {
        clone_strings(&self.affected_queries)
    }

    /// Forgets all affected regions and queries after reprocessing.
    pub fn clear_affected(&mut self)
        ensures
            final(self).wf(),
            final(self).regions() == Set::<Seq<char>>::empty(),
            final(self).queries() == Set::<Seq<char>>::empty(),
            final(self).last_time() == old(self).last_time(),
    {
        self.affected_regions.clear();
        self.affected_queries.clear();
        assert(views(self.affected_regions@) =~= Seq::<Seq<char>>::empty());
        assert(views(self.affected_queries@) =~= Seq::<Seq<char>>::empty());
        assert(self.regions() =~= Set::<Seq<char>>::empty());
        assert(self.queries() =~= Set::<Seq<char>>::empty());
    }

    /// Time of the last reprocessing.
    pub fn last_reprocess_time(&self) -> (t: i64)
        ensures
            t == self.last_time(),
    {
        self.last_reprocess_time_us
    }

    /// Records that reprocessing completed at `current_time_us`.
    pub fn mark_reprocessing_done(&mut self, current_time_us: i64)
        requires
            old(self).wf(),
        ensures
            final(self).wf(),
            final(self).last_time() == current_time_us,
            final(self).regions() == old(self).regions(),
            final(self).queries() == old(self).queries(),
    {
        self.last_reprocess_time_us = current_time_us;
        assert(self.regions() == old(self).regions());
    }

    /// Estimated reprocessing cost: 1 ms per affected region and 10 ms per
    /// affected query.
    pub fn estimate_reprocess_cost_ms(&self) -> (ms: u32)
        requires
            self.wf(),
            self.regions().len() + 10 * self.queries().len() <= u32::MAX,
        ensures
            ms == self.regions().len() + 10 * self.queries().len(),
    {
        proof {
            views(self.affected_regions@).unique_seq_to_set();
            views(self.affected_queries@).unique_seq_to_set();
        }
        let region_cost = self.affected_regions.len() as u32;
        let query_cost = self.affected_queries.len() as u32 * 10;
        region_cost + query_cost
    }
}

/// Appending a name that is absent keeps a list free of duplicates.
proof fn lemma_push_no_dup(s: Seq<Seq<char>>, x: Seq<char>)
    requires
        s.no_duplicates(),
        !s.contains(x),
    ensures
        s.push(x).no_duplicates(),
{
    assert forall|i: int, j: int| 0 <= i < s.push(x).len() && 0 <= j < s.push(x).len() && i != j
        implies s.push(x)[i] != s.push(x)[j] by {
        if i == s.len() {
            assert(s[j] != x);
        } else if j == s.len() {
            assert(s[i] != x);
        }
    }
}

/// The owned name of the `i`-th invalidated cell.
fn cell_name(i: usize) -> (s: String)
    requires
        i < 10,
    ensures
        s@ == cell_label(i as int),
{
    proof {
        reveal_strlit("cell_");
    }
    let lit: &str = if i == 0 {
        proof { reveal_strlit("cell_0"); }
        "cell_0"
    } else if i == 1 {
        proof { reveal_strlit("cell_1"); }
        "cell_1"
    } else if i == 2 {
        proof { reveal_strlit("cell_2"); }
        "cell_2"
    } else if i == 3 {
        proof { reveal_strlit("cell_3"); }
        "cell_3"
    } else if i == 4 {
        proof { reveal_strlit("cell_4"); }
        "cell_4"
    } else if i == 5 {
        proof { reveal_strlit("cell_5"); }
        "cell_5"
    } else if i == 6 {
        proof { reveal_strlit("cell_6"); }
        "cell_6"
    } else if i == 7 {
        proof { reveal_strlit("cell_7"); }
        "cell_7"
    } else if i == 8 {
        proof { reveal_strlit("cell_8"); }
        "cell_8"
    } else {
        proof { reveal_strlit("cell_9"); }
        "cell_9"
    };
    assert(lit@ =~= cell_label(i as int));
    lit.to_owned()
}

/// Latency of one observation relative to a watermark, in whole
/// milliseconds (rounded toward zero).
pub open spec fn latency_ms(obs: Observation, watermark_us: int) -> int {
    trunc_div(watermark_us - obs.temporal.event_time_us, 1000)
}

/// Sum of the latencies of the first `k` observations, in milliseconds.
pub open spec fn latency_sum(obs: Seq<Observation>, watermark_us: int, k: int) -> int
    decreases k,
{
    if k <= 0 {
        0
    } else {
        latency_sum(obs, watermark_us, k - 1) + latency_ms(obs[k - 1], watermark_us)
    }
}

/// Whether every step of summing the latencies stays within `i64`.
pub open spec fn latency_sums_fit(obs: Seq<Observation>, watermark_us: int) -> bool {
    &&& forall|j: int| 0 <= j < obs.len() ==>
        i64::MIN <= watermark_us - #[trigger] obs[j].temporal.event_time_us <= i64::MAX
    &&& forall|k: int| 0 <= k <= obs.len() ==>
        i64::MIN <= #[trigger] latency_sum(obs, watermark_us, k) <= i64::MAX
}

/// A batch of observations that arrived after the watermark.
pub struct LateArrivalBatch {
    /// Observations that arrived late.
    pub observations: Vec<Observation>,
    /// Their event times, in the same order.
    pub event_times: Vec<i64>,
    /// Watermark at the time the batch was detected.
    pub watermark_at_detection: i64,
}

impl LateArrivalBatch {
    pub fn new(watermark_at_detection: i64) -> (b: Self)
        ensures
            b.observations@ == Seq::<Observation>::empty(),
            b.event_times@ == Seq::<i64>::empty(),
            b.watermark_at_detection == watermark_at_detection,
    {
        LateArrivalBatch {
            observations: Vec::new(),
            event_times: Vec::new(),
            watermark_at_detection,
        }
    }

    /// Adds an observation, recording its event time alongside.
    pub fn add(&mut self, obs: Observation)
        ensures
            final(self).observations@ == old(self).observations@.push(obs),
            final(self).event_times@ == old(self).event_times@.push(obs.temporal.event_time_us),
            final(self).watermark_at_detection == old(self).watermark_at_detection,
    {
        let event_time = obs.temporal.event_time_us;
        self.observations.push(obs);
        self.event_times.push(event_time);
    }

    /// Number of late arrivals.
    pub fn len(&self) -> (n: usize)
        ensures
            n == self.observations@.len(),
    {
        self.observations.len()
    }

    /// Whether the batch is empty.
    pub fn is_empty(&self) -> (b: bool)
        ensures
            b == (self.observations@.len() == 0),
    {
        self.observations.len() == 0
    }

    /// Average latency in milliseconds: the sum of the per-observation
    /// latencies (each rounded toward zero) divided by the count (rounded
    /// toward zero), then narrowed to `u32`; zero for an empty batch.
    pub fn average_latency_ms(&self) -> (ms: u32)
        requires
            latency_sums_fit(self.observations@, self.watermark_at_detection as int),
            self.observations@.len() <= i64::MAX,
        ensures
            self.observations@.len() == 0 ==> ms == 0,
            self.observations@.len() > 0 ==> ms == (trunc_div(
                latency_sum(self.observations@, self.watermark_at_detection as int,
                    self.observations@.len() as int),
                self.observations@.len() as int,
            ) as u32),
    {
        let n = self.observations.len();
        if n == 0 {
            return 0;
        }
        let ghost obs = self.observations@;
        let ghost wm = self.watermark_at_detection as int;
        let mut total: i64 = 0;
        let mut i: usize = 0;
        while i < n
            invariant
                n == obs.len(),
                obs == self.observations@,
                wm == self.watermark_at_detection,
                latency_sums_fit(obs, wm),
                i <= n,
                total == latency_sum(obs, wm, i as int),
            decreases n - i,
        {
            let ev = self.observations[i].temporal.event_time_us;
            assert(i64::MIN <= wm - obs[i as int].temporal.event_time_us <= i64::MAX);
            let lat = self.watermark_at_detection - ev;
            let ms = lat / 1_000;
            assert(latency_sum(obs, wm, i + 1) == latency_sum(obs, wm, i as int) + latency_ms(obs[i as int], wm));
            assert(i64::MIN <= latency_sum(obs, wm, i + 1) <= i64::MAX);
            total = total + ms;
            i = i + 1;
        }
        let avg = total / (n as i64);
        #[verifier::truncate]
        (avg as u32)
    }
}

} // verus!
