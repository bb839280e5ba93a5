//! Passages (doors, gates, hallways) and the record of traversal attempts.

use vstd::prelude::*;

verus! {

broadcast use vstd::seq_lib::group_seq_properties;

/// Types of passages in the environment.
#[derive(Clone, Copy, Debug, PartialEq, Eq, Hash, Structural)]
pub enum PassageType {
    Door,
    Hallway,
    Gate,
    Elevator,
    Stairwell,
    NarrowCorridor,
    Bridge,
}

/// Record of a passage traversal attempt.
#[derive(Clone, Debug)]
pub struct PassageTraversal {
    pub timestamp: i64,
    pub robot_id: String,
    pub success: bool,
    pub was_open: bool,
}

/// Microseconds in a day.
pub const DAY_US: i64 = 86_400_000_000;

/// Most traversals a passage remembers.
pub const MAX_TRAVERSALS: usize = 1000;

/// Weight of a traversal observed at `timestamp` when it is `now_us`:
/// traversals younger than a day count twice.
pub open spec fn traversal_weight(timestamp: i64, now_us: i64) -> int {
    if now_us - timestamp < DAY_US {
        2
    } else {
        1
    }
}

/// Weighted counts of the first `k` traversals that found the passage open
/// and closed.
pub open spec fn open_closed_weights(h: Seq<PassageTraversal>, now_us: i64, k: int) -> (int, int)
    decreases k,
{
    if k <= 0 {
        (0, 0)
    } else {
        let w = open_closed_weights(h, now_us, k - 1);
        let t = h[k - 1];
        if t.was_open {
            (w.0 + traversal_weight(t.timestamp, now_us), w.1)
        } else {
            (w.0, w.1 + traversal_weight(t.timestamp, now_us))
        }
    }
}

/// The same traversal with the passage found in the opposite state.
pub open spec fn flipped(t: PassageTraversal) -> PassageTraversal {
    PassageTraversal {
        timestamp: t.timestamp,
        robot_id: t.robot_id,
        success: t.success,
        was_open: !t.was_open,
    }
}

/// Open and closed traversals are weighed alike: flipping whether each
/// traversal found the passage open swaps the open and closed counts.
pub proof fn lemma_open_closed_symmetric(h: Seq<PassageTraversal>, now_us: i64, k: int)
    requires
        0 <= k <= h.len(),
    ensures
        open_closed_weights(h.map_values(|t: PassageTraversal| flipped(t)), now_us, k) == (
            open_closed_weights(h, now_us, k).1,
            open_closed_weights(h, now_us, k).0,
        ),
    decreases k,
{
    if k > 0 {
        lemma_open_closed_symmetric(h, now_us, k - 1);
    }
}

/// Recording one more traversal adds its weight to the side it observed and
/// leaves the other side unchanged: 2 when it is younger than a day
/// (86,400,000,000 microseconds) at `now_us`, 1 otherwise.
pub proof fn lemma_open_closed_append(h: Seq<PassageTraversal>, t: PassageTraversal, now_us: i64)
    ensures
        ({
            let before = open_closed_weights(h, now_us, h.len() as int);
            let after = open_closed_weights(h.push(t), now_us, h.len() + 1int);
            let w: int = if now_us - t.timestamp < 86_400_000_000 { 2 } else { 1 };
            &&& t.was_open ==> after == (before.0 + w, before.1)
            &&& !t.was_open ==> after == (before.0, before.1 + w)
        }),
{
    lemma_open_closed_prefix(h, t, now_us, h.len() as int);
}

/// The counts over the first `k` traversals ignore what is recorded later.
proof fn lemma_open_closed_prefix(h: Seq<PassageTraversal>, t: PassageTraversal, now_us: i64, k: int)
    requires
        0 <= k <= h.len(),
    ensures
        open_closed_weights(h.push(t), now_us, k) == open_closed_weights(h, now_us, k),
    decreases k,
{
    if k > 0 {
        lemma_open_closed_prefix(h, t, now_us, k - 1);
        assert(h.push(t)[k - 1] == h[k - 1]);
    }
}

/// Number of successful traversals among the first `k`.
pub open spec fn successes(h: Seq<PassageTraversal>, k: int) -> int
    decreases k,
{
    if k <= 0 {
        0
    } else {
        successes(h, k - 1) + if h[k - 1].success { 1int } else { 0 }
    }
}

proof fn lemma_weights_bounded(h: Seq<PassageTraversal>, now_us: i64, k: int)
    requires
        0 <= k,
    ensures
        0 <= open_closed_weights(h, now_us, k).0,
        0 <= open_closed_weights(h, now_us, k).1,
        open_closed_weights(h, now_us, k).0 + open_closed_weights(h, now_us, k).1 <= 2 * k,
    decreases k,
{
    if k > 0 {
        lemma_weights_bounded(h, now_us, k - 1);
    }
}

proof fn lemma_successes_bounded(h: Seq<PassageTraversal>, k: int)
    requires
        0 <= k,
    ensures
        0 <= successes(h, k) <= k,
    decreases k,
{
    if k > 0 {
        lemma_successes_bounded(h, k - 1);
    }
}

/// Whether the ages of all traversals at `now_us` are representable.
pub open spec fn ages_fit(h: Seq<PassageTraversal>, now_us: i64) -> bool {
    forall|j: int| 0 <= j < h.len() ==> i64::MIN <= now_us - (#[trigger] h[j]).timestamp <= i64::MAX
}

/// Weighted open and closed counts over a traversal history, recent
/// (younger than a day) traversals counting double.
pub fn open_closed_counts(history: &Vec<PassageTraversal>, now_us: i64) -> (r: (u64, u64))
    requires
        ages_fit(history@, now_us),
        history@.len() <= u32::MAX,
    ensures
        r.0 == open_closed_weights(history@, now_us, history@.len() as int).0,
        r.1 == open_closed_weights(history@, now_us, history@.len() as int).1,
{
    let mut open: u64 = 0;
    let mut closed: u64 = 0;
    let mut i: usize = 0;
    while i < history.len()
        invariant
            i <= history@.len(),
            history@.len() <= u32::MAX,
            ages_fit(history@, now_us),
            open == open_closed_weights(history@, now_us, i as int).0,
            closed == open_closed_weights(history@, now_us, i as int).1,
        decreases history.len() - i,
    {
        proof { lemma_weights_bounded(history@, now_us, i as int); }
        let t = &history[i];
        assert(i64::MIN <= now_us - history@[i as int].timestamp <= i64::MAX);
        let w: u64 = if now_us - t.timestamp < DAY_US { 2 } else { 1 };
        if t.was_open {
            open = open + w;
        } else {
            closed = closed + w;
        }
        i = i + 1;
    }
    (open, closed)
}

/// Number of successful traversals.
pub fn success_count(history: &Vec<PassageTraversal>) -> (n: usize)
    ensures
        n == successes(history@, history@.len() as int),
{
    let mut n: usize = 0;
    let mut i: usize = 0;
    while i < history.len()
        invariant
            i <= history@.len(),
            n == successes(history@, i as int),
        decreases history.len() - i,
    {
        proof { lemma_successes_bounded(history@, i as int); }
        if history[i].success {
            n = n + 1;
        }
        i = i + 1;
    }
    n
}

/// Drops the oldest traversal when the history has grown past
/// `MAX_TRAVERSALS`.
pub fn trim_history(history: &mut Vec<PassageTraversal>)
    ensures
        old(history)@.len() > MAX_TRAVERSALS ==> final(history)@ == old(history)@.drop_first(),
        old(history)@.len() <= MAX_TRAVERSALS ==> final(history)@ == old(history)@,
{
    if history.len() > MAX_TRAVERSALS {
        let _ = history.remove(0);
        assert(history@ =~= old(history)@.drop_first());
    }
}

} // verus!
