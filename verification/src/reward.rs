//! One reward emission schedule of a pool: a time window, an emission rate and
//! the per-liquidity growth accumulator that the rate feeds while the window
//! is open.

use vstd::prelude::*;
use crate::error::ErrorCode;
use crate::math::{mul_div_ceil, mul_div_floor, spec_mul_div_ceil, spec_mul_div_floor, Q64};
use crate::pubkey::Pubkey;

verus! {

/// Number of reward schedules embedded in a pool.
pub const REWARD_NUM: usize = 3;

/// Where a schedule stands in its life.
#[derive(Clone, Copy, Debug, PartialEq, Eq, Structural)]
pub enum RewardState {
    /// Never set up.
    Uninitialized,
    /// Set up with a window; emits while the window is open.
    Initialized,
    /// The window has closed.
    Ended,
}

/// One reward schedule.
#[derive(Clone, Copy, Debug, PartialEq, Eq)]
pub struct RewardInfo {
    /// Where the schedule stands in its life.
    pub reward_state: RewardState,
    /// Start of the emission window.
    pub open_time: u64,
    /// End of the emission window.
    pub end_time: u64,
    /// Time up to which emission has been accounted for.
    pub last_update_time: u64,
    /// Tokens emitted per second, in Q64.64.
    pub emissions_per_second_x64: u128,
    /// Tokens emitted so far.
    pub reward_total_emissioned: u64,
    /// Tokens claimed so far.
    pub reward_claimed: u64,
    /// Mint of the reward token.
    pub token_mint: Pubkey,
    /// Vault that holds the reward tokens.
    pub token_vault: Pubkey,
    /// Who may change the schedule.
    pub authority: Pubkey,
    /// Tokens emitted per unit of liquidity since the schedule began, in
    /// Q64.64.
    pub reward_growth_global_x64: u128,
}

/// The window and the rate of a new reward cycle.
#[derive(Clone, Copy, Debug, PartialEq, Eq)]
pub struct InitializeRewardParam {
    /// Start of the emission window.
    pub open_time: u64,
    /// End of the emission window.
    pub end_time: u64,
    /// Tokens emitted per second, in Q64.64.
    pub emissions_per_second_x64: u128,
}

/// The later of two times.
pub open spec fn later(a: u64, b: u64) -> u64 {
    if a >= b {
        a
    } else {
        b
    }
}

/// The earlier of two times.
pub open spec fn earlier(a: u64, b: u64) -> u64 {
    if a <= b {
        a
    } else {
        b
    }
}

impl RewardInfo {
    /// Number of bytes one schedule takes in a stored pool.
    pub const LEN: usize = 1 + 8 + 8 + 8 + 16 + 8 + 8 + 32 + 32 + 32 + 16;

    /// What holds of every schedule that the operations of this crate
    /// produced: accounting never runs past the end of the window, and no
    /// more is claimed than was emitted.
    pub open spec fn wf(&self) -> bool {
        &&& self.last_update_time <= self.end_time
        &&& self.reward_claimed <= self.reward_total_emissioned
    }

    /// The time up to which a call at `now` accounts: `now`, but neither past
    /// the end of the window nor before what is already accounted for.
    pub open spec fn accrual_horizon(&self, now: u64) -> u64 {
        later(self.last_update_time, earlier(now, self.end_time))
    }

    /// Seconds that a call at `now` newly accounts for.
    pub open spec fn accrual_elapsed(&self, now: u64) -> u64 {
        (self.accrual_horizon(now) - self.last_update_time) as u64
    }

    /// Whether a call at `now` touches the schedule at all: it runs, and its
    /// window has opened.
    pub open spec fn accrues_at(&self, now: u64) -> bool {
        self.reward_state == RewardState::Initialized && self.open_time <= now
    }

    /// Growth per unit of liquidity that a call at `now` adds: rate times
    /// seconds over liquidity, rounded down.
    pub open spec fn growth_delta(&self, liquidity: u128, now: u64) -> int {
        spec_mul_div_floor(self.emissions_per_second_x64, self.accrual_elapsed(now), liquidity)
    }

    /// Tokens that a call at `now` counts as emitted: rate times seconds,
    /// rounded up to whole tokens, so that the count never falls short of what
    /// the growth accumulator hands out.
    pub open spec fn emission_delta(&self, now: u64) -> int {
        spec_mul_div_ceil(self.emissions_per_second_x64, self.accrual_elapsed(now), Q64)
    }

    /// The schedule after a call at `now` with `liquidity` in range, or `None`
    /// where an accumulator would overflow.
    ///
    /// With no liquidity in range nothing is emitted for the interval, but the
    /// interval is consumed all the same.
    pub open spec fn spec_accrue(&self, liquidity: u128, now: u64) -> Option<RewardInfo> {
        if !self.accrues_at(now) {
            Some(*self)
        } else {
            let state = if now >= self.end_time {
                RewardState::Ended
            } else {
                RewardState::Initialized
            };
            let horizon = self.accrual_horizon(now);
            if liquidity == 0 {
                Some(RewardInfo { reward_state: state, last_update_time: horizon, ..*self })
            } else {
                let growth = self.reward_growth_global_x64 + self.growth_delta(liquidity, now);
                let emitted = self.reward_total_emissioned + self.emission_delta(now);
                if growth > u128::MAX || emitted > u64::MAX {
                    None
                } else {
                    Some(
                        RewardInfo {
                            reward_state: state,
                            last_update_time: horizon,
                            reward_growth_global_x64: growth as u128,
                            reward_total_emissioned: emitted as u64,
                            ..*self
                        },
                    )
                }
            }
        }
    }

    /// The schedule that was never set up: every field zero.
    pub open spec fn spec_new() -> RewardInfo {
        RewardInfo {
            reward_state: RewardState::Uninitialized,
            open_time: 0,
            end_time: 0,
            last_update_time: 0,
            emissions_per_second_x64: 0,
            reward_total_emissioned: 0,
            reward_claimed: 0,
            token_mint: Pubkey::spec_zero(),
            token_vault: Pubkey::spec_zero(),
            authority: Pubkey::spec_zero(),
            reward_growth_global_x64: 0,
        }
    }

    /// A schedule that was never set up.
    pub fn new() -> (r: RewardInfo)
        ensures
            r == RewardInfo::spec_new(),
            r.wf(),
    {
        RewardInfo {
            reward_state: RewardState::Uninitialized,
            open_time: 0,
            end_time: 0,
            last_update_time: 0,
            emissions_per_second_x64: 0,
            reward_total_emissioned: 0,
            reward_claimed: 0,
            token_mint: Pubkey::default(),
            token_vault: Pubkey::default(),
            authority: Pubkey::default(),
            reward_growth_global_x64: 0,
        }
    }

    /// Whether the schedule runs a cycle.
    pub fn initialized(&self) -> (r: bool)
        ensures
            r == (self.reward_state == RewardState::Initialized),
    {
        self.reward_state == RewardState::Initialized
    }

    /// Tokens emitted and not yet claimed.
    pub fn unclaimed(&self) -> (r: u64)
        ensures
            r == self.spec_unclaimed(),
    {
        if self.reward_claimed <= self.reward_total_emissioned {
            self.reward_total_emissioned - self.reward_claimed
        } else {
            0
        }
    }

    /// The schedule brought up to `now` with `liquidity` in range; `None`
    /// where an accumulator would overflow.
    pub fn accrue(&self, liquidity: u128, now: u64) -> (res: Option<RewardInfo>)
        ensures
            res == self.spec_accrue(liquidity, now),
            self.wf() && res is Some ==> res->0.wf(),
    {
        if !self.initialized() || now < self.open_time {
            return Some(*self);
        }
        let capped: u64 = if now <= self.end_time {
            now
        } else {
            self.end_time
        };
        let horizon: u64 = if self.last_update_time >= capped {
            self.last_update_time
        } else {
            capped
        };
        let elapsed: u64 = horizon - self.last_update_time;
        let state = if now >= self.end_time {
            RewardState::Ended
        } else {
            RewardState::Initialized
        };
        let mut next = *self;
        next.reward_state = state;
        next.last_update_time = horizon;
        if liquidity == 0 {
            return Some(next);
        }
        let growth_delta = match mul_div_floor(self.emissions_per_second_x64, elapsed, liquidity) {
            Some(v) => v,
            None => {
                return None;
            },
        };
        let growth = match self.reward_growth_global_x64.checked_add(growth_delta) {
            Some(v) => v,
            None => {
                return None;
            },
        };
        let emitted_delta = match mul_div_ceil(self.emissions_per_second_x64, elapsed, Q64) {
            Some(v) => v,
            None => {
                return None;
            },
        };
        if emitted_delta > u64::MAX as u128 {
            return None;
        }
        let emitted = match self.reward_total_emissioned.checked_add(emitted_delta as u64) {
            Some(v) => v,
            None => {
                return None;
            },
        };
        next.reward_growth_global_x64 = growth;
        next.reward_total_emissioned = emitted;
        Some(next)
    }
}

impl RewardInfo {
    /// Tokens emitted and not yet claimed.
    pub open spec fn spec_unclaimed(&self) -> u64 {
        if self.reward_claimed <= self.reward_total_emissioned {
            (self.reward_total_emissioned - self.reward_claimed) as u64
        } else {
            0
        }
    }

    /// The schedule at the start of a cycle with the window and rate of
    /// `param`: it runs, it is accounted for up to the opening of the window,
    /// and it keeps what it has accumulated, emitted and handed out so far.
    pub open spec fn spec_start(
        &self,
        param: InitializeRewardParam,
        token_mint: Pubkey,
        token_vault: Pubkey,
        authority: Pubkey,
    ) -> RewardInfo {
        RewardInfo {
            reward_state: RewardState::Initialized,
            open_time: param.open_time,
            end_time: param.end_time,
            last_update_time: param.open_time,
            emissions_per_second_x64: param.emissions_per_second_x64,
            token_mint,
            token_vault,
            authority,
            ..*self
        }
    }

    /// What a change of rate and window at `now` makes of a schedule that is
    /// accounted for up to `now`.
    ///
    /// A schedule that runs takes the new rate and the new end: the rate may
    /// not go down, and the end must lie after `now`; its opening stays, and
    /// its accounting stays where it is, but not past the new end. A schedule
    /// that has ended starts a new cycle with any rate, in a window that
    /// opens no earlier than `now` and before it ends. A schedule that was
    /// never set up is refused.
    pub open spec fn spec_set_params(
        &self,
        now: u64,
        emissions_per_second_x64: u128,
        open_time: u64,
        end_time: u64,
    ) -> Result<RewardInfo, ErrorCode> {
        match self.reward_state {
            RewardState::Uninitialized => Err(ErrorCode::RewardNotInitialized),
            RewardState::Initialized => if emissions_per_second_x64
                < self.emissions_per_second_x64 {
                Err(ErrorCode::EmissionRateDecreased)
            } else if end_time <= now {
                Err(ErrorCode::InvalidWindow)
            } else {
                Ok(
                    RewardInfo {
                        emissions_per_second_x64,
                        end_time,
                        last_update_time: earlier(self.last_update_time, end_time),
                        ..*self
                    },
                )
            },
            RewardState::Ended => if open_time < now || open_time >= end_time {
                Err(ErrorCode::InvalidWindow)
            } else {
                Ok(
                    RewardInfo {
                        reward_state: RewardState::Initialized,
                        open_time,
                        end_time,
                        last_update_time: open_time,
                        emissions_per_second_x64,
                        ..*self
                    },
                )
            },
        }
    }

    /// Starts a cycle with the window and rate of `param`.
    pub fn start(
        &self,
        param: InitializeRewardParam,
        token_mint: Pubkey,
        token_vault: Pubkey,
        authority: Pubkey,
    ) -> (r: RewardInfo)
        ensures
            r == self.spec_start(param, token_mint, token_vault, authority),
            self.reward_claimed <= self.reward_total_emissioned && param.open_time
                < param.end_time ==> r.wf(),
    {
        let mut r = *self;
        r.reward_state = RewardState::Initialized;
        r.open_time = param.open_time;
        r.end_time = param.end_time;
        r.last_update_time = param.open_time;
        r.emissions_per_second_x64 = param.emissions_per_second_x64;
        r.token_mint = token_mint;
        r.token_vault = token_vault;
        r.authority = authority;
        r
    }

    /// Changes the rate and the window of a schedule that is accounted for up
    /// to `now`.
    pub fn set_params(
        &self,
        now: u64,
        emissions_per_second_x64: u128,
        open_time: u64,
        end_time: u64,
    ) -> (res: Result<RewardInfo, ErrorCode>)
        ensures
            res == self.spec_set_params(now, emissions_per_second_x64, open_time, end_time),
            self.reward_claimed <= self.reward_total_emissioned && res is Ok ==> res->Ok_0.wf(),
    {
        let mut r = *self;
        match self.reward_state {
            RewardState::Uninitialized => Err(ErrorCode::RewardNotInitialized),
            RewardState::Initialized => {
                if emissions_per_second_x64 < self.emissions_per_second_x64 {
                    return Err(ErrorCode::EmissionRateDecreased);
                }
                if end_time <= now {
                    return Err(ErrorCode::InvalidWindow);
                }
                r.emissions_per_second_x64 = emissions_per_second_x64;
                r.end_time = end_time;
                if r.last_update_time > end_time {
                    r.last_update_time = end_time;
                }
                Ok(r)
            },
            RewardState::Ended => {
                if open_time < now || open_time >= end_time {
                    return Err(ErrorCode::InvalidWindow);
                }
                r.reward_state = RewardState::Initialized;
                r.open_time = open_time;
                r.end_time = end_time;
                r.last_update_time = open_time;
                r.emissions_per_second_x64 = emissions_per_second_x64;
                Ok(r)
            },
        }
    }
}

/// A call never lowers what a schedule has accumulated or emitted, never
/// moves its accounting back, and leaves what was claimed alone.
pub proof fn lemma_accrue_monotonic(r: RewardInfo, liquidity: u128, now: u64)
    requires
        r.spec_accrue(liquidity, now) is Some,
    ensures
        r.spec_accrue(liquidity, now)->0.reward_growth_global_x64 >= r.reward_growth_global_x64,
        r.spec_accrue(liquidity, now)->0.reward_total_emissioned >= r.reward_total_emissioned,
        r.spec_accrue(liquidity, now)->0.last_update_time >= r.last_update_time,
        r.spec_accrue(liquidity, now)->0.reward_claimed == r.reward_claimed,
        r.reward_claimed <= r.reward_total_emissioned ==> r.spec_accrue(liquidity, now)->0.reward_claimed
            <= r.spec_accrue(liquidity, now)->0.reward_total_emissioned,
{
    if r.accrues_at(now) && liquidity != 0 {
        lemma_deltas_nonnegative(r, liquidity, now);
    }
}

/// Neither delta of a call is negative.
pub proof fn lemma_deltas_nonnegative(r: RewardInfo, liquidity: u128, now: u64)
    requires
        liquidity != 0,
    ensures
        r.growth_delta(liquidity, now) >= 0,
        r.emission_delta(now) >= 0,
{
    let p = r.emissions_per_second_x64 as int * r.accrual_elapsed(now) as int;
    assert(p >= 0) by (nonlinear_arith)
        requires
            p == r.emissions_per_second_x64 as int * r.accrual_elapsed(now) as int,
            r.emissions_per_second_x64 >= 0,
            r.accrual_elapsed(now) >= 0,
    ;
    vstd::arithmetic::div_mod::lemma_div_pos_is_pos(p, liquidity as int);
    vstd::arithmetic::div_mod::lemma_div_pos_is_pos(p, Q64 as int);
}

/// A second call at the same time changes nothing.
pub proof fn lemma_accrue_idempotent(r: RewardInfo, liquidity: u128, now: u64)
    requires
        r.spec_accrue(liquidity, now) is Some,
    ensures
        r.spec_accrue(liquidity, now)->0.spec_accrue(liquidity, now) == r.spec_accrue(
            liquidity,
            now,
        ),
{
    let s = r.spec_accrue(liquidity, now)->0;
    if s.accrues_at(now) {
        assert(s.accrual_elapsed(now) == 0);
        if liquidity != 0 {
            assert(0int / (liquidity as int) == 0 && 0int % (Q64 as int) == 0 && 0int / (Q64 as int)
                == 0) by {
                vstd::arithmetic::div_mod::lemma_fundamental_div_mod_converse(
                    0,
                    liquidity as int,
                    0,
                    0,
                );
                vstd::arithmetic::div_mod::lemma_fundamental_div_mod_converse(0, Q64 as int, 0, 0);
            }
        }
    }
}

} // verus!
