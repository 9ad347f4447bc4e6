//! The price history of one pool: a ring of 100 samples, each the integral of
//! the pool's tick over time up to the sample's timestamp. A reader takes the
//! difference of two samples and divides by the time between them to get a
//! time-weighted average tick.

use vstd::prelude::*;
use vstd::wrapping::{i64_specs, u32_specs};
use crate::error::ErrorCode;
use crate::pubkey::Pubkey;

verus! {

/// Number of samples the ring holds.
pub const OBSERVATION_NUM: usize = 100;

/// Seconds that must pass after a sample before the pool appends the next.
pub const OBSERVATION_UPDATE_DURATION_DEFAULT: u32 = 15;

/// One sample.
#[derive(Clone, Copy, Debug, PartialEq, Eq)]
pub struct Observation {
    /// Time of the sample, in seconds modulo 2^32.
    pub block_timestamp: u32,
    /// Integral of the tick over time up to `block_timestamp`, modulo 2^64.
    pub tick_cumulative: i64,
    /// Reserved.
    pub padding: [u64; 4],
}

/// The ring of samples of one pool.
#[derive(Clone, Copy, Debug, PartialEq, Eq)]
pub struct ObservationState {
    /// Whether the ring holds a sample.
    pub initialized: bool,
    /// Epoch of the most recent update, kept for the host.
    pub recent_epoch: u64,
    /// Slot of the most recent sample.
    pub observation_index: u16,
    /// The pool that the samples belong to.
    pub pool_id: Pubkey,
    /// The slots.
    pub observations: [Observation; 100],
    /// Number of slots that hold a sample. A stored ring keeps it in the
    /// first of its reserved words.
    pub cardinality: u16,
    /// Reserved.
    pub padding: [u64; 4],
}

/// Seconds from `from` to `to` on a clock that wraps at 2^32.
pub open spec fn elapsed_between(from: u32, to: u32) -> u32 {
    u32_specs::wrapping_sub(to, from)
}

/// The slot after `i` in the ring.
pub open spec fn next_slot(i: int) -> int {
    if i + 1 >= 100 {
        0
    } else {
        i + 1
    }
}

/// The sample at time `at` that continues `base` with the tick held at `tick`
/// in between: the integral grows by tick times seconds, wrapping at 64 bits.
pub open spec fn sample_after(base: Observation, tick: i32, at: u32) -> Observation {
    Observation {
        block_timestamp: at,
        tick_cumulative: i64_specs::wrapping_add(
            base.tick_cumulative,
            (tick as int * elapsed_between(base.block_timestamp, at) as int) as i64,
        ),
        padding: base.padding,
    }
}

/// The first sample of a history.
pub open spec fn first_sample(slot: Observation, at: u32) -> Observation {
    Observation { block_timestamp: at, tick_cumulative: 0, padding: slot.padding }
}

impl Observation {
    /// Number of bytes one sample takes in a stored ring.
    pub const LEN: usize = 4 + 8 + 8 * 4;

    /// The zero sample.
    pub open spec fn spec_new() -> Observation {
        Observation {
            block_timestamp: 0,
            tick_cumulative: 0,
            padding: vstd::array::spec_array_fill_for_copy_type::<u64, 4>(0u64),
        }
    }

    /// The zero sample.
    pub fn new() -> (o: Observation)
        ensures
            o == Observation::spec_new(),
    {
        Observation { block_timestamp: 0, tick_cumulative: 0, padding: [0u64;4] }
    }

    /// The sample at time `at` that continues this one with the tick held at
    /// `tick` in between.
    pub fn continued(&self, tick: i32, at: u32) -> (o: Observation)
        ensures
            o == sample_after(*self, tick, at),
    {
        let elapsed: u32 = at.wrapping_sub(self.block_timestamp);
        assert(-0x8000_0000_0000_0000 <= tick as int * elapsed as int <= 0x7fff_ffff_ffff_ffff)
            by (nonlinear_arith)
            requires
                -0x8000_0000 <= tick <= 0x7fff_ffff,
                0 <= elapsed <= 0xffff_ffff,
        ;
        let delta: i64 = (tick as i64) * (elapsed as i64);
        Observation {
            block_timestamp: at,
            tick_cumulative: self.tick_cumulative.wrapping_add(delta),
            padding: self.padding,
        }
    }
}

impl ObservationState {
    /// Number of bytes a stored ring takes, its 8-byte record header
    /// included.
    pub const LEN: usize = 8 + 1 + 8 + 2 + 32 + (Observation::LEN * OBSERVATION_NUM) + 8 * 4;

    /// What holds of every ring that the operations of this crate produced:
    /// the index names a slot; an empty ring counts no sample; a ring that
    /// has not yet gone round holds its samples in slots 0 up to the index.
    pub open spec fn wf(&self) -> bool {
        &&& self.observation_index < 100
        &&& self.cardinality <= 100
        &&& self.initialized <==> self.cardinality >= 1
        &&& !self.initialized ==> self.observation_index == 0
        &&& self.initialized && self.cardinality < 100 ==> self.observation_index + 1
            == self.cardinality
    }

    /// The most recent sample.
    pub open spec fn spec_latest(&self) -> Observation {
        self.observations[self.observation_index as int]
    }

    /// The ring after `initialize`.
    pub open spec fn spec_initialize(&self, pool_id: Pubkey, now: u32) -> ObservationState {
        ObservationState {
            initialized: true,
            observation_index: 0,
            pool_id,
            observations: vstd::array::spec_array_update(
                self.observations,
                0,
                first_sample(self.observations[0], now),
            ),
            cardinality: 1,
            ..*self
        }
    }

    /// Whether a write at `now` collapses into the latest sample rather than
    /// appending one: no time has passed since it, or less than the interval
    /// asked for.
    pub open spec fn collapses_at(&self, now: u32, min_interval: u32) -> bool {
        let elapsed = elapsed_between(self.spec_latest().block_timestamp, now);
        elapsed == 0 || elapsed < min_interval
    }

    /// The ring after a write at `now` with the pool at `tick`.
    ///
    /// An empty ring takes its first sample. Otherwise, where the write
    /// collapses into the latest sample, it adds nothing to the integral and
    /// the ring stays as it is: index, number of samples and every slot;
    /// where it appends, the next slot takes the sample that continues the
    /// latest one to `now`.
    pub open spec fn spec_write(&self, now: u32, tick: i32, min_interval: u32) -> ObservationState {
        let index = self.observation_index as int;
        if !self.initialized {
            self.spec_initialize(self.pool_id, now)
        } else if self.collapses_at(now, min_interval) {
            *self
        } else {
            ObservationState {
                observation_index: next_slot(index) as u16,
                observations: vstd::array::spec_array_update(
                    self.observations,
                    next_slot(index),
                    sample_after(self.spec_latest(), tick, now),
                ),
                cardinality: if self.cardinality < 100 {
                    (self.cardinality + 1) as u16
                } else {
                    self.cardinality
                },
                ..*self
            }
        }
    }

    /// The empty ring for the pool `pool_id`: every field but the pool is
    /// zero.
    pub open spec fn spec_new(pool_id: Pubkey) -> ObservationState {
        ObservationState {
            initialized: false,
            recent_epoch: 0,
            observation_index: 0,
            pool_id,
            observations: vstd::array::spec_array_fill_for_copy_type::<Observation, 100>(
                Observation::spec_new(),
            ),
            cardinality: 0,
            padding: vstd::array::spec_array_fill_for_copy_type::<u64, 4>(0u64),
        }
    }

    /// An empty ring for the pool `pool_id`.
    pub fn new(pool_id: Pubkey) -> (s: ObservationState)
        ensures
            s == ObservationState::spec_new(pool_id),
            s.wf(),
    {
        ObservationState {
            initialized: false,
            recent_epoch: 0,
            observation_index: 0,
            pool_id,
            observations: [Observation::new();100],
            cardinality: 0,
            padding: [0u64;4],
        }
    }

    /// Whether the ring satisfies `wf`.
    pub fn is_wf(&self) -> (r: bool)
        ensures
            r == self.wf(),
    {
        self.observation_index < 100 && self.cardinality <= 100 && (self.initialized == (
        self.cardinality >= 1)) && (self.initialized || self.observation_index == 0) && (
        !self.initialized || self.cardinality >= 100 || self.observation_index + 1
            == self.cardinality)
    }

    /// Starts a history for `pool_id` at `now`: slot 0 takes the first
    /// sample, with an integral of zero, and becomes the latest.
    pub fn initialize(&mut self, pool_id: Pubkey, now: u32)
        ensures
            *final(self) == old(self).spec_initialize(pool_id, now),
            final(self).wf(),
    {
        self.initialized = true;
        self.observation_index = 0;
        self.pool_id = pool_id;
        self.observations[0].block_timestamp = now;
        self.observations[0].tick_cumulative = 0;
        self.cardinality = 1;
        assert(self.observations =~= old(self).spec_initialize(pool_id, now).observations);
    }

    /// The most recent sample.
    pub fn latest(&self) -> (o: Observation)
        requires
            self.wf(),
        ensures
            o == self.spec_latest(),
    {
        self.observations[self.observation_index as usize]
    }

    /// Records the pool's tick at `now`: appends a sample whenever time has
    /// passed since the latest one, and changes nothing where none has.
    pub fn write(&mut self, now: u32, tick: i32)
        requires
            old(self).wf(),
        ensures
            *final(self) == old(self).spec_write(now, tick, 0),
            final(self).wf(),
    {
        self.write_throttled(now, tick, 0)
    }

    /// Records the pool's tick at `now`: appends a sample only when at least
    /// `min_interval` seconds have passed since the latest one, and changes
    /// nothing before that.
    pub fn write_throttled(&mut self, now: u32, tick: i32, min_interval: u32)
        requires
            old(self).wf(),
        ensures
            *final(self) == old(self).spec_write(now, tick, min_interval),
            final(self).wf(),
    {
        if !self.initialized {
            self.initialize(self.pool_id, now);
            return ;
        }
        let index: usize = self.observation_index as usize;
        let last = self.observations[index];
        let elapsed: u32 = now.wrapping_sub(last.block_timestamp);
        if elapsed == 0 || elapsed < min_interval {
            return ;
        }
        let next: usize = if index + 1 >= 100 {
            0
        } else {
            index + 1
        };
        self.observations[next] = last.continued(tick, now);
        self.observation_index = next as u16;
        if self.cardinality < 100 {
            self.cardinality = self.cardinality + 1;
        }
        assert(self.observations =~= old(self).spec_write(now, tick, min_interval).observations);
    }
}

/// The integral at a time between two samples, taken on the straight line
/// from `before` to `after`: `offset` of the `span` seconds between them have
/// passed. The share of the difference is rounded down.
pub open spec fn interpolated(before: Observation, after: Observation, offset: int, span: int) -> i64 {
    i64_specs::wrapping_add(
        before.tick_cumulative,
        ((i64_specs::wrapping_sub(after.tick_cumulative, before.tick_cumulative) as int * offset)
            / span) as i64,
    )
}

proof fn lemma_share_fits(delta: int, offset: int, span: int)
    requires
        -0x8000_0000_0000_0000 <= delta <= 0x7fff_ffff_ffff_ffff,
        0 <= offset < span,
        span <= 0xffff_ffff,
    ensures
        -0x8000_0000_0000_0000 <= (delta * offset) / span <= 0x7fff_ffff_ffff_ffff,
        -0x8000_0000_0000_0000_0000_0000 <= delta * offset <= 0x8000_0000_0000_0000_0000_0000,
{
    assert(-0x8000_0000_0000_0000 * span <= delta * offset <= 0x7fff_ffff_ffff_ffff * span)
        by (nonlinear_arith)
        requires
            -0x8000_0000_0000_0000 <= delta <= 0x7fff_ffff_ffff_ffff,
            0 <= offset < span,
    ;
    vstd::arithmetic::div_mod::lemma_div_is_ordered(
        -0x8000_0000_0000_0000 * span,
        delta * offset,
        span,
    );
    vstd::arithmetic::div_mod::lemma_div_is_ordered(
        delta * offset,
        0x7fff_ffff_ffff_ffff * span,
        span,
    );
    vstd::arithmetic::div_mod::lemma_div_multiples_vanish(-0x8000_0000_0000_0000, span);
    vstd::arithmetic::div_mod::lemma_div_multiples_vanish(0x7fff_ffff_ffff_ffff, span);
}

impl ObservationState {
    /// The slot of the sample `k` steps before the latest.
    pub open spec fn slot_back(&self, k: int) -> int {
        if self.observation_index - k < 0 {
            self.observation_index - k + 100
        } else {
            self.observation_index - k
        }
    }

    /// The sample `k` steps before the latest.
    pub open spec fn sample_back(&self, k: int) -> Observation {
        self.observations[self.slot_back(k)]
    }

    /// Seconds from the sample `k` steps back to the latest.
    pub open spec fn age(&self, k: int) -> u32 {
        elapsed_between(
            self.sample_back(k).block_timestamp,
            self.spec_latest().block_timestamp,
        )
    }

    /// Steps back, from `k` on, to the first sample that is at least `back`
    /// seconds older than the latest; the oldest sample where there is none.
    pub open spec fn steps_to(&self, back: u32, k: int) -> int
        decreases self.cardinality - k,
    {
        if k >= self.cardinality - 1 || self.age(k) >= back {
            k
        } else {
            self.steps_to(back, k + 1)
        }
    }

    /// Whether the ring can answer for the time `target`: it holds a sample,
    /// and `target` lies no further back from the latest sample than the
    /// oldest sample does. A time after the latest sample lies, on the
    /// wrapping clock, further back than any sample.
    pub open spec fn retains(&self, target: u32) -> bool {
        self.initialized && elapsed_between(target, self.spec_latest().block_timestamp)
            <= self.age(self.cardinality - 1)
    }

    /// The integral of the tick up to `target`, or `StaleOracleQuery` where
    /// the ring does not retain that time.
    ///
    /// It is the integral of the sample taken at `target` where there is one,
    /// and else lies on the straight line between the samples about
    /// `target`.
    pub open spec fn spec_cumulative_at(&self, target: u32) -> Result<i64, ErrorCode> {
        if !self.retains(target) {
            Err(ErrorCode::StaleOracleQuery)
        } else {
            let back = elapsed_between(target, self.spec_latest().block_timestamp);
            let k = self.steps_to(back, 0);
            if self.age(k) == back {
                Ok(self.sample_back(k).tick_cumulative)
            } else {
                Ok(
                    interpolated(
                        self.sample_back(k),
                        self.sample_back(k - 1),
                        self.age(k) - back,
                        self.age(k) - self.age(k - 1),
                    ),
                )
            }
        }
    }

    /// The average tick from `from` to `to`: the difference of the integrals
    /// at the two times over the seconds between them, rounded down.
    /// `InvalidWindow` where no time lies between them, else
    /// `StaleOracleQuery` where the ring does not retain one of them.
    pub open spec fn spec_average_tick(&self, from: u32, to: u32) -> Result<i64, ErrorCode> {
        if elapsed_between(from, to) == 0 {
            Err(ErrorCode::InvalidWindow)
        } else {
            match (self.spec_cumulative_at(from), self.spec_cumulative_at(to)) {
                (Ok(a), Ok(b)) => Ok(
                    ((i64_specs::wrapping_sub(b, a) as int) / (elapsed_between(from, to) as int)) as i64,
                ),
                _ => Err(ErrorCode::StaleOracleQuery),
            }
        }
    }

    /// The sample `k` steps before the latest.
    fn back(&self, k: u16) -> (o: Observation)
        requires
            self.wf(),
            k < 100,
        ensures
            o == self.sample_back(k as int),
    {
        let slot: u16 = if self.observation_index < k {
            self.observation_index + 100 - k
        } else {
            self.observation_index - k
        };
        self.observations[slot as usize]
    }

    /// The integral of the tick up to `target`.
    pub fn cumulative_at(&self, target: u32) -> (res: Result<i64, ErrorCode>)
        requires
            self.wf(),
        ensures
            res == self.spec_cumulative_at(target),
    {
        if !self.initialized {
            return Err(ErrorCode::StaleOracleQuery);
        }
        let latest = self.latest();
        let oldest = self.back(self.cardinality - 1);
        let back: u32 = latest.block_timestamp.wrapping_sub(target);
        if back > latest.block_timestamp.wrapping_sub(oldest.block_timestamp) {
            return Err(ErrorCode::StaleOracleQuery);
        }
        let mut k: u16 = 0;
        let mut before = latest;
        let mut after = latest;
        while k < self.cardinality - 1 && latest.block_timestamp.wrapping_sub(
            before.block_timestamp,
        ) < back
            invariant
                self.wf(),
                self.initialized,
                latest == self.spec_latest(),
                k <= self.cardinality - 1,
                before == self.sample_back(k as int),
                k > 0 ==> after == self.sample_back(k - 1) && self.age(k - 1) < back,
                self.steps_to(back, 0) == self.steps_to(back, k as int),
            decreases self.cardinality - k,
        {
            after = before;
            k = k + 1;
            before = self.back(k);
        }
        let age: u32 = latest.block_timestamp.wrapping_sub(before.block_timestamp);
        if age == back {
            return Ok(before.tick_cumulative);
        }
        assert(k > 0);
        let newer: u32 = latest.block_timestamp.wrapping_sub(after.block_timestamp);
        let offset: u32 = age - back;
        let span: u32 = age - newer;
        let delta: i64 = after.tick_cumulative.wrapping_sub(before.tick_cumulative);
        proof {
            lemma_share_fits(delta as int, offset as int, span as int);
        }
        let product: i128 = (delta as i128) * (offset as i128);
        let share = product.checked_div_euclid(span as i128);
        let share: i128 = share.unwrap();
        Ok(before.tick_cumulative.wrapping_add(share as i64))
    }

    /// The average tick from `from` to `to`.
    pub fn average_tick(&self, from: u32, to: u32) -> (res: Result<i64, ErrorCode>)
        requires
            self.wf(),
        ensures
            res == self.spec_average_tick(from, to),
    {
        let seconds: u32 = to.wrapping_sub(from);
        if seconds == 0 {
            return Err(ErrorCode::InvalidWindow);
        }
        let a = match self.cumulative_at(from) {
            Ok(v) => v,
            Err(_) => {
                return Err(ErrorCode::StaleOracleQuery);
            },
        };
        let b = match self.cumulative_at(to) {
            Ok(v) => v,
            Err(_) => {
                return Err(ErrorCode::StaleOracleQuery);
            },
        };
        let delta: i64 = b.wrapping_sub(a);
        proof {
            let d = delta as int;
            let s = seconds as int;
            vstd::arithmetic::div_mod::lemma_div_is_ordered(-0x8000_0000_0000_0000 * s, d, s);
            vstd::arithmetic::div_mod::lemma_div_is_ordered(d, 0x7fff_ffff_ffff_ffff * s, s);
            vstd::arithmetic::div_mod::lemma_div_multiples_vanish(-0x8000_0000_0000_0000, s);
            vstd::arithmetic::div_mod::lemma_div_multiples_vanish(0x7fff_ffff_ffff_ffff, s);
        }
        let average = delta.checked_div_euclid(seconds as i64);
        Ok(average.unwrap())
    }
}

impl Default for ObservationState {
    fn default() -> (s: ObservationState)
        ensures
            s == ObservationState::spec_new(Pubkey::spec_zero()),
            s.wf(),
    {
        ObservationState::new(Pubkey::default())
    }
}

/// The ring after the first `n` of a series of writes, the `k`-th of them at
/// `times[k]` with the pool at `ticks[k]`, each asking for `min_interval`
/// seconds since the latest sample.
pub open spec fn spec_write_first(
    s: ObservationState,
    times: Seq<u32>,
    ticks: Seq<i32>,
    min_interval: u32,
    n: nat,
) -> ObservationState
    decreases n,
{
    if n == 0 {
        s
    } else {
        spec_write_first(s, times, ticks, min_interval, (n - 1) as nat).spec_write(
            times[n - 1],
            ticks[n - 1],
            min_interval,
        )
    }
}

/// The integral that the `k`-th sample of a history holds, where the history
/// starts at `times[0]` and the tick is `ticks[k]` from `times[k - 1]` to
/// `times[k]`.
pub open spec fn history_cumulative(times: Seq<u32>, ticks: Seq<i32>, k: int) -> i64
    decreases k,
{
    if k <= 0 {
        0
    } else {
        i64_specs::wrapping_add(
            history_cumulative(times, ticks, k - 1),
            (ticks[k] as int * (times[k] - times[k - 1])) as i64,
        )
    }
}

/// Two writes at one time collapse: the second changes nothing, whatever
/// its tick, so the ring holds one sample for that time, with the integral
/// that the first write gave it.
pub proof fn lemma_same_time_writes_collapse(
    s: ObservationState,
    now: u32,
    first_tick: i32,
    second_tick: i32,
    min_interval: u32,
)
    requires
        s.wf(),
    ensures
        s.spec_write(now, first_tick, min_interval).spec_write(now, second_tick, min_interval)
            == s.spec_write(now, first_tick, min_interval),
        !(s.initialized && s.collapses_at(now, min_interval)) ==> s.spec_write(
            now,
            first_tick,
            min_interval,
        ).spec_latest().block_timestamp == now,
{
}

/// After `n` writes into an empty ring at strictly increasing times that
/// lie at least `min_interval` seconds apart, the latest sample sits in slot
/// `(n - 1) mod 100`, and each of the last 100 samples sits in the slot of
/// its number modulo 100, holding its time and the integral of the ticks up
/// to it.
///
/// So up to 100 writes are read back in order from slots `0` to `n - 1`, and
/// the 101st takes slot 0.
pub proof fn lemma_ring_holds_latest_samples(
    s: ObservationState,
    times: Seq<u32>,
    ticks: Seq<i32>,
    min_interval: u32,
    n: nat,
)
    requires
        s.wf(),
        !s.initialized,
        1 <= n <= times.len(),
        times.len() == ticks.len(),
        forall|i: int|
            0 <= i < times.len() - 1 ==> times[i] < #[trigger] times[i + 1] && times[i + 1]
                - times[i] >= min_interval,
    ensures
        spec_write_first(s, times, ticks, min_interval, n).wf(),
        spec_write_first(s, times, ticks, min_interval, n).initialized,
        spec_write_first(s, times, ticks, min_interval, n).observation_index == (n - 1) % 100,
        spec_write_first(s, times, ticks, min_interval, n).cardinality == if n < 100 {
            n
        } else {
            100
        },
        forall|k: int|
            0 <= k < n && n - 100 <= k ==> (#[trigger] spec_write_first(
                s,
                times,
                ticks,
                min_interval,
                n,
            ).observations[k % 100]).block_timestamp == times[k] && spec_write_first(
                s,
                times,
                ticks,
                min_interval,
                n,
            ).observations[k % 100].tick_cumulative == history_cumulative(times, ticks, k),
        forall|i: int|
            n <= i < 100 ==> spec_write_first(s, times, ticks, min_interval, n).observations[i]
                == s.observations[i],
    decreases n,
{
    if n == 1 {
        assert(spec_write_first(s, times, ticks, min_interval, 0) == s);
    } else {
        lemma_ring_holds_latest_samples(s, times, ticks, min_interval, (n - 1) as nat);
        assert(times[n - 2] < times[n - 2 + 1]);
    }
}

} // verus!
