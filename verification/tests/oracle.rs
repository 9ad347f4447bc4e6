use clmm_pool::oracle::{OBSERVATION_NUM, OBSERVATION_UPDATE_DURATION_DEFAULT};
use clmm_pool::{ErrorCode, ErrorKind, Observation, ObservationState, Pubkey};

fn key(n: u8) -> Pubkey {
    Pubkey::new_from_array([n; 32])
}

#[test]
fn oracle_sizes() {
    assert_eq!(OBSERVATION_NUM, 100);
    assert_eq!(OBSERVATION_UPDATE_DURATION_DEFAULT, 15);
    assert_eq!(Observation::LEN, 44);
    assert_eq!(ObservationState::LEN, 8 + 1 + 8 + 2 + 32 + 100 * 44 + 32);
}

#[test]
fn default_ring_is_zeroed() {
    let s = ObservationState::default();
    assert!(!s.initialized);
    assert_eq!(s.recent_epoch, 0);
    assert_eq!(s.observation_index, 0);
    assert_eq!(s.cardinality, 0);
    assert_eq!(s.pool_id, Pubkey::default());
    assert_eq!(s.padding, [0u64; 4]);
    for o in s.observations.iter() {
        assert_eq!(*o, Observation::new());
    }
    assert_eq!(Observation::new().block_timestamp, 0);
    assert_eq!(Observation::new().tick_cumulative, 0);
    assert_eq!(Observation::new().padding, [0u64; 4]);
    assert!(s.is_wf());
    assert_eq!(ObservationState::new(key(4)).pool_id, key(4));
}

#[test]
fn initialize_sets_first_sample() {
    let mut s = ObservationState::default();
    s.initialize(key(3), 1_000);
    assert!(s.initialized);
    assert_eq!(s.pool_id, key(3));
    assert_eq!(s.observation_index, 0);
    assert_eq!(s.cardinality, 1);
    assert_eq!(s.observations[0].block_timestamp, 1_000);
    assert_eq!(s.observations[0].tick_cumulative, 0);
    assert_eq!(s.latest(), s.observations[0]);
    assert!(s.is_wf());
}

#[test]
fn write_appends_with_integral() {
    let mut s = ObservationState::default();
    s.initialize(key(3), 100);
    s.write(110, 5);
    assert_eq!(s.observation_index, 1);
    assert_eq!(s.cardinality, 2);
    assert_eq!(s.observations[1].block_timestamp, 110);
    assert_eq!(s.observations[1].tick_cumulative, 50);
    s.write(130, -7);
    assert_eq!(s.observation_index, 2);
    assert_eq!(s.observations[2].block_timestamp, 130);
    assert_eq!(s.observations[2].tick_cumulative, 50 - 140);
    assert_eq!(s.observations[0].block_timestamp, 100);
    assert_eq!(s.observations[1].tick_cumulative, 50);
}

#[test]
fn first_write_into_empty_ring_initializes() {
    let mut s = ObservationState::new(key(9));
    s.write(77, 12345);
    assert!(s.initialized);
    assert_eq!(s.pool_id, key(9));
    assert_eq!(s.observation_index, 0);
    assert_eq!(s.cardinality, 1);
    assert_eq!(s.observations[0].block_timestamp, 77);
    assert_eq!(s.observations[0].tick_cumulative, 0);
}

#[test]
fn hundred_writes_read_back_in_order() {
    let mut s = ObservationState::new(key(1));
    let mut expected: Vec<(u32, i64)> = Vec::new();
    let mut cum: i64 = 0;
    let mut prev_t: u32 = 0;
    for k in 0..100u32 {
        let t = 1_000 + 5 * k + (k % 4);
        let tick = (k as i32) * 11 - 300;
        if k > 0 {
            cum += (tick as i64) * ((t - prev_t) as i64);
        }
        prev_t = t;
        expected.push((t, cum));
        s.write(t, tick);
        assert_eq!(s.observation_index as u32, k);
        assert_eq!(s.cardinality as u32, k + 1);
    }
    for k in 0..100usize {
        assert_eq!(s.observations[k].block_timestamp, expected[k].0);
        assert_eq!(s.observations[k].tick_cumulative, expected[k].1);
    }
    // the 101st takes slot 0
    let t = prev_t + 5;
    s.write(t, 40);
    assert_eq!(s.observation_index, 0);
    assert_eq!(s.cardinality, 100);
    assert_eq!(s.observations[0].block_timestamp, t);
    assert_eq!(s.observations[0].tick_cumulative, cum + 200);
    for k in 1..100usize {
        assert_eq!(s.observations[k].block_timestamp, expected[k].0);
        assert_eq!(s.observations[k].tick_cumulative, expected[k].1);
    }
    assert!(s.is_wf());
}

#[test]
fn partial_fill_leaves_rest_zero() {
    let mut s = ObservationState::new(key(1));
    for k in 0..7u32 {
        s.write(10 + k, 1);
    }
    assert_eq!(s.observation_index, 6);
    assert_eq!(s.cardinality, 7);
    for k in 7..100usize {
        assert_eq!(s.observations[k], Observation::new());
    }
}

#[test]
fn same_timestamp_writes_collapse() {
    let mut s = ObservationState::default();
    s.initialize(key(3), 100);
    s.write(110, 5);
    let mut once = s;
    once.write(120, 4);
    let mut twice = s;
    twice.write(120, 4);
    twice.write(120, 9);
    // the second write at the same time adds nothing to the integral
    assert_eq!(twice, once);
    assert_eq!(twice.observation_index, 2);
    assert_eq!(twice.cardinality, 3);
    assert_eq!(twice.observations[2].block_timestamp, 120);
    assert_eq!(twice.observations[2].tick_cumulative, 50 + 40);
    assert_eq!(twice.observations[3], Observation::new());
}

#[test]
fn second_write_at_one_time_keeps_the_integral() {
    let mut s = ObservationState::new(key(1));
    s.write(0, 0);
    s.write(100, 5);
    assert_eq!(s.observations[1].tick_cumulative, 500);
    let before = s;
    s.write(100, 7);
    assert_eq!(s, before);
    assert_eq!(s.observations[1].tick_cumulative, 500);
}

#[test]
fn same_timestamp_as_first_sample_keeps_it() {
    let mut s = ObservationState::default();
    s.initialize(key(3), 100);
    let before = s;
    s.write(100, 55);
    assert_eq!(s, before);
}

#[test]
fn same_timestamp_after_wrap_changes_nothing() {
    let mut s = ObservationState::new(key(1));
    for k in 0..101u32 {
        s.write(1 + k, 2);
    }
    assert_eq!(s.observation_index, 0);
    let base = s.observations[99];
    assert_eq!(base.block_timestamp, 100);
    assert_eq!(s.observations[0].tick_cumulative, base.tick_cumulative + 2);
    let before = s;
    s.write(101, 10);
    assert_eq!(s, before);
}

#[test]
fn throttled_write_changes_nothing_before_interval() {
    let mut s = ObservationState::default();
    s.initialize(key(3), 100);
    s.write_throttled(120, 3, 15);
    assert_eq!(s.observation_index, 1);
    assert_eq!(s.observations[1].tick_cumulative, 60);
    // 14 seconds later: no new sample, and the recorded interval stays
    let before = s;
    s.write_throttled(134, 4, 15);
    assert_eq!(s, before);
    // 15 seconds after the sample: appended, with the tick of this write
    s.write_throttled(135, 1, 15);
    assert_eq!(s.observation_index, 2);
    assert_eq!(s.observations[2].block_timestamp, 135);
    assert_eq!(s.observations[2].tick_cumulative, 75);
}

#[test]
fn timestamps_wrap_at_32_bits() {
    let mut s = ObservationState::default();
    s.initialize(key(3), u32::MAX - 4);
    s.write(5, 3);
    assert_eq!(s.observation_index, 1);
    assert_eq!(s.observations[1].block_timestamp, 5);
    // ten seconds across the wrap
    assert_eq!(s.observations[1].tick_cumulative, 30);
}

#[test]
fn cumulative_wraps_at_64_bits() {
    let mut s = ObservationState::default();
    s.initialize(key(3), 0);
    s.observations[0].tick_cumulative = i64::MAX - 5;
    s.write(10, 1);
    assert_eq!(s.observations[1].tick_cumulative, i64::MIN + 4);
    assert_eq!(
        s.observations[0].continued(i32::MIN, u32::MAX).tick_cumulative,
        (i64::MAX - 5).wrapping_add((i32::MIN as i64) * (u32::MAX as i64))
    );
}

#[test]
fn is_wf_rejects_bad_rings() {
    let mut s = ObservationState::default();
    s.observation_index = 100;
    assert!(!s.is_wf());
    let mut s = ObservationState::default();
    s.cardinality = 1;
    assert!(!s.is_wf());
    let mut s = ObservationState::default();
    s.initialize(key(1), 5);
    s.observation_index = 3;
    assert!(!s.is_wf());
    s.cardinality = 4;
    assert!(s.is_wf());
    s.cardinality = 101;
    assert!(!s.is_wf());
}

fn history() -> ObservationState {
    // ticks: 5 from 100 to 110, -7 from 110 to 130, 2 from 130 to 160
    let mut s = ObservationState::new(key(1));
    s.write(100, 0);
    s.write(110, 5);
    s.write(130, -7);
    s.write(160, 2);
    s
}

#[test]
fn cumulative_at_sample_times() {
    let s = history();
    assert_eq!(s.cumulative_at(100), Ok(0));
    assert_eq!(s.cumulative_at(110), Ok(50));
    assert_eq!(s.cumulative_at(130), Ok(50 - 140));
    assert_eq!(s.cumulative_at(160), Ok(50 - 140 + 60));
}

#[test]
fn cumulative_between_samples_is_interpolated() {
    let s = history();
    assert_eq!(s.cumulative_at(104), Ok(20));
    assert_eq!(s.cumulative_at(120), Ok(50 - 70));
    assert_eq!(s.cumulative_at(129), Ok(50 - 133));
    assert_eq!(s.cumulative_at(145), Ok(-90 + 30));
}

#[test]
fn cumulative_interpolation_rounds_down() {
    let mut s = ObservationState::new(key(1));
    s.write(0, 0);
    s.write(3, 0);
    s.observations[1].tick_cumulative = 10;
    assert_eq!(s.cumulative_at(1), Ok(3));
    assert_eq!(s.cumulative_at(2), Ok(6));
    s.observations[1].tick_cumulative = -10;
    assert_eq!(s.cumulative_at(1), Ok(-4));
    assert_eq!(s.cumulative_at(2), Ok(-7));
}

#[test]
fn stale_and_future_queries_are_refused() {
    let s = history();
    assert_eq!(s.cumulative_at(99), Err(ErrorCode::StaleOracleQuery));
    assert_eq!(s.cumulative_at(0), Err(ErrorCode::StaleOracleQuery));
    assert_eq!(s.cumulative_at(161), Err(ErrorCode::StaleOracleQuery));
    assert_eq!(ObservationState::default().cumulative_at(0), Err(ErrorCode::StaleOracleQuery));
    assert_eq!(ErrorCode::StaleOracleQuery.kind(), ErrorKind::StaleOracleQuery);
    // after the ring has gone round, the overwritten samples are gone
    let mut r = ObservationState::new(key(1));
    for k in 0..150u32 {
        r.write(1000 + 10 * k, 1);
    }
    assert_eq!(r.cumulative_at(1000 + 10 * 49), Err(ErrorCode::StaleOracleQuery));
    assert_eq!(r.cumulative_at(1000 + 10 * 50), Ok(500));
    assert_eq!(r.cumulative_at(1000 + 10 * 50 + 5), Ok(505));
    assert_eq!(r.cumulative_at(1000 + 10 * 149), Ok(1490));
}

#[test]
fn average_tick_over_windows() {
    let s = history();
    assert_eq!(s.average_tick(100, 110), Ok(5));
    assert_eq!(s.average_tick(110, 130), Ok(-7));
    assert_eq!(s.average_tick(130, 160), Ok(2));
    // -30 over 60 seconds, rounded down
    assert_eq!(s.average_tick(100, 160), Ok(-1));
    assert_eq!(s.average_tick(105, 125), Ok((50 - 105 - 25) / 20));
    assert_eq!(s.average_tick(120, 120), Err(ErrorCode::InvalidWindow));
    assert_eq!(s.average_tick(90, 120), Err(ErrorCode::StaleOracleQuery));
    assert_eq!(s.average_tick(120, 170), Err(ErrorCode::StaleOracleQuery));
    assert_eq!(s.average_tick(90, 90), Err(ErrorCode::InvalidWindow));
}

#[test]
fn reader_works_across_the_clock_wrap() {
    let mut s = ObservationState::new(key(1));
    s.write(u32::MAX - 9, 0);
    s.write(10, 4);
    assert_eq!(s.cumulative_at(u32::MAX), Ok(36));
    assert_eq!(s.cumulative_at(0), Ok(40));
    assert_eq!(s.cumulative_at(10), Ok(80));
    assert_eq!(s.average_tick(u32::MAX - 9, 10), Ok(4));
}
