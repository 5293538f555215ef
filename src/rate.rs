use vstd::prelude::*;

verus! {

/// The rate of one bucket over one interval, held exactly as a fraction:
/// `delta / interval` counter units per time unit.
#[derive(PartialEq, Eq, Structural, Clone, Copy, Debug)]
pub struct Rate {
    /// How much the bucket's counter grew over the interval.
    pub delta: u64,
    /// The length of the interval, in the unit the rate is expressed per.
    pub interval: u64,
}

/// Why two histogram samples give no rates.
#[derive(PartialEq, Eq, Structural, Clone, Copy, Debug)]
pub enum RateError {
    /// The interval between the samples is zero.
    ZeroInterval,
    /// The two samples have different bucket counts.
    ShapeMismatch { previous: usize, current: usize },
    /// A bucket's counter went down: the counter was reset or wrapped around.
    CounterReset { bucket: usize },
}

/// Every bucket of `cur` is at least the same bucket of `prev`.
pub open spec fn non_decreasing(prev: Seq<u64>, cur: Seq<u64>) -> bool {
    forall|i: int| 0 <= i < cur.len() ==> prev[i] <= #[trigger] cur[i]
}

/// `bucket` is the first bucket whose counter went down from `prev` to `cur`.
pub open spec fn first_reset(prev: Seq<u64>, cur: Seq<u64>, bucket: int) -> bool {
    &&& 0 <= bucket < cur.len()
    &&& cur[bucket] < prev[bucket]
    &&& forall|j: int| 0 <= j < bucket ==> prev[j] <= #[trigger] cur[j]
}

/// `rates` holds, for each bucket, its growth from `prev` to `cur` over `interval`.
pub open spec fn rates_of(prev: Seq<u64>, cur: Seq<u64>, interval: u64, rates: Seq<Rate>) -> bool {
    &&& rates.len() == cur.len()
    &&& forall|i: int|
        0 <= i < rates.len() ==> #[trigger] rates[i] == (Rate {
            delta: (cur[i] - prev[i]) as u64,
            interval,
        })
}

/// The per-bucket rates between two consecutive histogram samples taken
/// `interval` time units apart.
pub fn bucket_rates(prev: &Vec<u64>, cur: &Vec<u64>, interval: u64) -> (r: Result<Vec<Rate>, RateError>)
    ensures
        interval == 0 <==> r == Err::<Vec<Rate>, RateError>(RateError::ZeroInterval),
        interval > 0 && prev.len() != cur.len() <==> r == Err::<Vec<Rate>, RateError>(
            RateError::ShapeMismatch { previous: prev.len(), current: cur.len() },
        ),
        interval > 0 && prev.len() == cur.len() && !non_decreasing(prev@, cur@) <==> (r matches Err(
            RateError::CounterReset { .. },
        )),
        r matches Err(RateError::CounterReset { bucket }) ==> first_reset(prev@, cur@, bucket as int),
        r is Ok <==> interval > 0 && prev.len() == cur.len() && non_decreasing(prev@, cur@),
        r matches Ok(rates) ==> rates_of(prev@, cur@, interval, rates@),
{
    if interval == 0 {
        return Err(RateError::ZeroInterval);
    }
    if prev.len() != cur.len() {
        return Err(RateError::ShapeMismatch { previous: prev.len(), current: cur.len() });
    }
    let mut rates: Vec<Rate> = Vec::new();
    let mut i: usize = 0;
    while i < cur.len()
        invariant
            prev.len() == cur.len(),
            i <= cur.len(),
            interval > 0,
            rates@.len() == i,
            forall|j: int| 0 <= j < i ==> prev[j] <= #[trigger] cur[j],
            forall|j: int|
                0 <= j < i ==> #[trigger] rates@[j] == (Rate {
                    delta: (cur[j] - prev[j]) as u64,
                    interval,
                }),
        decreases cur.len() - i,
    {
        if cur[i] < prev[i] {
            assert(first_reset(prev@, cur@, i as int));
            return Err(RateError::CounterReset { bucket: i });
        }
        rates.push(Rate { delta: cur[i] - prev[i], interval });
        i = i + 1;
    }
    Ok(rates)
}

/// Exactness: wherever rates are given, each one times the interval is the
/// bucket's growth, with no rounding.
pub proof fn lemma_rates_are_exact(prev: Seq<u64>, cur: Seq<u64>, interval: u64, rates: Seq<Rate>, i: int)
    requires
        interval > 0,
        rates_of(prev, cur, interval, rates),
        non_decreasing(prev, cur),
        0 <= i < cur.len(),
    ensures
        rates[i].interval == interval,
        rates[i].delta as int == cur[i] as int - prev[i] as int,
{
}

/// Counters that never go down give rates that are all at least zero, and a
/// counter that goes down is flagged at the first such bucket rather than
/// given a rate.
pub proof fn lemma_monotone_counters(prev: Seq<u64>, cur: Seq<u64>)
    requires
        prev.len() == cur.len(),
    ensures
        non_decreasing(prev, cur) ==> forall|i: int|
            0 <= i < cur.len() ==> cur[i] as int - prev[i] as int >= 0,
        !non_decreasing(prev, cur) ==> exists|b: int| first_reset(prev, cur, b),
{
    if !non_decreasing(prev, cur) {
        let k = choose|k: int| 0 <= k < cur.len() && !(prev[k] <= cur[k]);
        lemma_first_reset_exists(prev, cur, k);
    }
}

proof fn lemma_first_reset_exists(prev: Seq<u64>, cur: Seq<u64>, k: int)
    requires
        prev.len() == cur.len(),
        0 <= k < cur.len(),
        cur[k] < prev[k],
    ensures
        exists|b: int| first_reset(prev, cur, b),
    decreases k,
{
    if forall|j: int| 0 <= j < k ==> prev[j] <= #[trigger] cur[j] {
        assert(first_reset(prev, cur, k));
    } else {
        let j = choose|j: int| 0 <= j < k && !(prev[j] <= cur[j]);
        lemma_first_reset_exists(prev, cur, j);
    }
}

} // verus!
