use vstd::prelude::*;
use crate::rate::{bucket_rates, first_reset, non_decreasing, rates_of, Rate, RateError};
use crate::sample::ChannelState;

verus! {

/// Why a sampling tick cannot go on.
#[derive(PartialEq, Eq, Structural, Clone, Copy, Debug)]
pub enum TickError {
    /// The tracked channel did not decode to a histogram.
    NotHistogram,
    /// The histogram gives no rates against the previous one.
    Rate(RateError),
}

/// The state carried from one sampling tick to the next: the most recent
/// histogram of the tracked channel, if any, and the fixed interval between
/// ticks.
pub struct SamplingSession {
    previous: Option<Vec<u64>>,
    interval: u64,
}

impl SamplingSession {
    /// The most recent histogram, if a tick has stored one.
    pub closed spec fn previous_spec(&self) -> Option<Seq<u64>> {
        match self.previous {
            Some(v) => Some(v@),
            None => None,
        }
    }

    /// The interval between ticks.
    pub closed spec fn interval_spec(&self) -> u64 {
        self.interval
    }

    /// A session with no previous histogram.
    pub fn new(interval: u64) -> (s: Self)
        ensures
            s.previous_spec() is None,
            s.interval_spec() == interval,
    {
        SamplingSession { previous: None, interval }
    }

    pub fn interval(&self) -> (r: u64)
        ensures
            r == self.interval_spec(),
    {
        self.interval
    }

    /// A copy of the most recent histogram.
    pub fn previous(&self) -> (r: Option<Vec<u64>>)
        ensures
            r is None <==> self.previous_spec() is None,
            r matches Some(v) ==> self.previous_spec() == Some(v@),
    {
        match &self.previous {
            Some(v) => {
                let c = v.clone();
                assert(c@ =~= v@);
                Some(c)
            },
            None => None,
        }
    }

    /// One sampling tick on the decoded state of the tracked channel.
    ///
    /// A state that is not a histogram is an error and leaves the session as
    /// it was. A histogram is stored as the previous one in every case; where
    /// there was a previous one, the rates against it are returned (or why
    /// there are none), and on the first tick nothing is computed.
    pub fn tick(&mut self, state: ChannelState) -> (r: Result<Option<Vec<Rate>>, TickError>)
        ensures
            !(state@ is State) ==> r == Err::<Option<Vec<Rate>>, TickError>(TickError::NotHistogram)
                && *final(self) == *old(self),
            final(self).interval_spec() == old(self).interval_spec(),
            state@ is State ==> final(self).previous_spec() == Some(state@->State_0),
            state@ is State && old(self).previous_spec() is None ==> r == Ok::<
                Option<Vec<Rate>>,
                TickError,
            >(None),
            state@ is State && old(self).previous_spec() is Some ==> tick_outcome(
                old(self).previous_spec()->Some_0,
                state@->State_0,
                old(self).interval_spec(),
                r,
            ),
    {
        match state {
            ChannelState::State(cur) => {
                let r = match &self.previous {
                    None => Ok(None),
                    Some(prev) => match bucket_rates(prev, &cur, self.interval) {
                        Ok(rates) => Ok(Some(rates)),
                        Err(e) => Err(TickError::Rate(e)),
                    },
                };
                self.previous = Some(cur);
                r
            },
            _ => Err(TickError::NotHistogram),
        }
    }
}

/// What a tick with a previous histogram returns: the rates of every bucket
/// when the interval is positive, the shapes agree and no counter went down,
/// and otherwise the reason.
pub open spec fn tick_outcome(
    prev: Seq<u64>,
    cur: Seq<u64>,
    interval: u64,
    r: Result<Option<Vec<Rate>>, TickError>,
) -> bool {
    if interval == 0 {
        r == Err::<Option<Vec<Rate>>, TickError>(TickError::Rate(RateError::ZeroInterval))
    } else if prev.len() != cur.len() {
        r == Err::<Option<Vec<Rate>>, TickError>(
            TickError::Rate(RateError::ShapeMismatch { previous: prev.len() as usize, current: cur.len() as usize }),
        )
    } else if !non_decreasing(prev, cur) {
        r matches Err(TickError::Rate(RateError::CounterReset { bucket })) && first_reset(
            prev,
            cur,
            bucket as int,
        )
    } else {
        r matches Ok(Some(rates)) && rates_of(prev, cur, interval, rates@)
    }
}

} // verus!
