use vstd::prelude::*;

use crate::question::Question;
use crate::time::Hours;
use crate::time::Minutes;
use crate::time::Time;

verus! {

/// The sum of a table of weights.
pub open spec fn total_weight(ws: Seq<u32>) -> int
    decreases ws.len(),
{
    if ws.len() == 0 {
        0
    } else {
        total_weight(ws.drop_last()) + ws.last()
    }
}

/// Relies on rand::random_range on the thread-local generator: for a
/// nonempty range `lo..hi` it returns a uniformly drawn value in
/// `[lo, hi)` and panics only on an empty range.
#[verifier::external_body]
fn random_in(lo: u8, hi: u8) -> (r: u8)
    requires
        lo < hi,
    ensures
        lo <= r < hi,
{
    rand::random_range(lo..hi)
}

/// Relies on rand::distr::weighted::WeightedIndex::new and its
/// Distribution::sample on the thread-local generator: over a nonempty
/// table with a positive sum that fits its weight type, `new` succeeds,
/// and sampling returns an index within the table whose weight is
/// nonzero (an entry of weight zero is never chosen).
#[verifier::external_body]
fn weighted_pick(weights: &Vec<u32>) -> (i: usize)
    requires
        weights@.len() > 0,
        0 < total_weight(weights@) <= u32::MAX,
    ensures
        i < weights@.len(),
        weights@[i as int] > 0,
{
    let dist = rand::distr::weighted::WeightedIndex::new(weights.iter()).expect(
        "weight table must have a positive sum",
    );
    rand::distr::Distribution::sample(&dist, &mut rand::rng())
}

/// Draw a uniformly random valid hour.
pub fn random_hours() -> (h: Hours)
    ensures
        h.wf(),
{
    Hours(random_in(0, 24))
}

/// Draw a uniformly random valid minute count.
pub fn random_minutes() -> (m: Minutes)
    ensures
        m.wf(),
{
    Minutes(random_in(0, 60))
}

/// Draw a random time with independent hour and minute fields.
pub fn random_time() -> (t: Time)
    ensures
        t.wf(),
{
    Time { hours: random_hours(), minutes: random_minutes() }
}

/// Draw a random nonzero minute offset for an addition question.
pub fn random_offset() -> (m: Minutes)
    ensures
        m.wf(),
        m.0 >= 1,
{
    Minutes(random_in(1, 60))
}

/// Draw a random question, weighted two to one in favor of the
/// addition kind over the difference kind.
pub fn random_question() -> (q: Question)
    ensures
        q.wf(),
        q matches Question::TimePlusMinutes { minutes_diff, .. } ==> minutes_diff.0 >= 1,
{
    let mut weights: Vec<u32> = Vec::new();
    weights.push(2);
    weights.push(1);
    proof {
        assert(weights@ =~= seq![2u32, 1u32]);
        assert(seq![2u32, 1u32].drop_last() =~= seq![2u32]);
        assert(seq![2u32].drop_last() =~= Seq::<u32>::empty());
        assert(total_weight(Seq::<u32>::empty()) == 0);
        assert(total_weight(seq![2u32]) == 2);
        assert(total_weight(seq![2u32, 1u32]) == 3);
    }
    let idx = weighted_pick(&weights);
    if idx == 0 {
        Question::TimePlusMinutes { base_time: random_time(), minutes_diff: random_offset() }
    } else {
        Question::TimeDifference { start_time: random_time(), end_time: random_time() }
    }
}

} // verus!
