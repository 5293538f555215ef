use ioreport_sampler::rate::{bucket_rates, Rate, RateError};
use ioreport_sampler::sample::{ChannelState, RawSample};
use ioreport_sampler::session::{SamplingSession, TickError};

fn as_f64(r: &Rate) -> f64 {
    r.delta as f64 / r.interval as f64
}

#[test]
fn rates_are_exact_differences_over_the_interval() {
    let rates = bucket_rates(&vec![5, 10, 0], &vec![15, 10, 7], 4).unwrap();
    assert_eq!(
        rates,
        vec![
            Rate { delta: 10, interval: 4 },
            Rate { delta: 0, interval: 4 },
            Rate { delta: 7, interval: 4 },
        ]
    );
    assert_eq!(as_f64(&rates[0]), 2.5);
    assert_eq!(as_f64(&rates[2]), 1.75);
}

#[test]
fn monotone_counters_give_non_negative_rates() {
    let ticks: Vec<Vec<u64>> = vec![vec![0, 0, 0], vec![1, 0, 3], vec![5, 2, 3], vec![9, 2, u64::MAX]];
    for w in ticks.windows(2) {
        let rates = bucket_rates(&w[0], &w[1], 100).unwrap();
        assert_eq!(rates.len(), 3);
        for (i, r) in rates.iter().enumerate() {
            assert_eq!(r.delta, w[1][i] - w[0][i]);
            assert!(as_f64(r) >= 0.0);
        }
    }
}

#[test]
fn counter_going_down_is_flagged_at_first_bucket() {
    assert_eq!(
        bucket_rates(&vec![1, 9, 9, 9], &vec![2, 9, 3, 1], 10),
        Err(RateError::CounterReset { bucket: 2 })
    );
    assert_eq!(bucket_rates(&vec![1], &vec![0], 10), Err(RateError::CounterReset { bucket: 0 }));
}

#[test]
fn different_bucket_counts_are_a_shape_mismatch() {
    assert_eq!(
        bucket_rates(&vec![1, 2, 3], &vec![1, 2], 10),
        Err(RateError::ShapeMismatch { previous: 3, current: 2 })
    );
}

#[test]
fn zero_interval_gives_no_rates() {
    assert_eq!(bucket_rates(&vec![1], &vec![2], 0), Err(RateError::ZeroInterval));
}

#[test]
fn empty_histograms_give_no_rates() {
    assert_eq!(bucket_rates(&vec![], &vec![], 100), Ok(vec![]));
}

#[test]
fn first_tick_stores_histogram_without_rates() {
    let mut session = SamplingSession::new(100);
    assert_eq!(session.previous(), None);
    assert_eq!(session.tick(ChannelState::State(vec![3, 4])), Ok(None));
    assert_eq!(session.previous(), Some(vec![3, 4]));
    assert_eq!(session.interval(), 100);
}

#[test]
fn non_histogram_state_is_refused_and_session_kept() {
    let mut session = SamplingSession::new(100);
    assert_eq!(session.tick(ChannelState::Simple(5)), Err(TickError::NotHistogram));
    assert_eq!(session.previous(), None);
    session.tick(ChannelState::State(vec![1])).unwrap();
    assert_eq!(session.tick(ChannelState::Invalid), Err(TickError::NotHistogram));
    assert_eq!(session.previous(), Some(vec![1]));
}

#[test]
fn tick_after_reset_reports_it_and_keeps_the_new_histogram() {
    let mut session = SamplingSession::new(10);
    session.tick(ChannelState::State(vec![5, 5])).unwrap();
    assert_eq!(
        session.tick(ChannelState::State(vec![6, 1])),
        Err(TickError::Rate(RateError::CounterReset { bucket: 1 }))
    );
    assert_eq!(session.previous(), Some(vec![6, 1]));
}

#[test]
fn end_to_end_three_buckets_over_one_hundred_ms() {
    let mut session = SamplingSession::new(100);
    let tick0 = RawSample { format: 2, integer_value: 0, residencies: vec![0, 0, 0] };
    let tick1 = RawSample { format: 2, integer_value: 0, residencies: vec![100, 0, 50] };
    assert_eq!(session.tick(tick0.get_state()), Ok(None));
    let rates = session.tick(tick1.get_state()).unwrap().unwrap();
    let values: Vec<f64> = rates.iter().map(as_f64).collect();
    assert_eq!(values, vec![1.0, 0.0, 0.5]);
    assert_eq!(session.previous(), Some(vec![100, 0, 50]));
}
