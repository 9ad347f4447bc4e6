//! The reward schedules of a pool: bringing them up to date, starting and
//! changing a cycle, and handing out what was emitted.

use vstd::prelude::*;
use crate::config::AmmConfig;
use crate::error::ErrorCode;
use crate::operation::OperationState;
use crate::pool::PoolState;
use crate::pubkey::Pubkey;
use crate::reward::{InitializeRewardParam, RewardInfo, RewardState};
use crate::status::PoolStatusBitIndex;

verus! {

impl PoolState {
    /// The pool after `update_reward_infos` at `now`: each schedule brought up
    /// to `now` with the pool's liquidity, or `None` where an accumulator of
    /// one of them would overflow.
    pub open spec fn spec_update_reward_infos(&self, now: u64) -> Option<PoolState> {
        let r0 = self.reward_infos[0].spec_accrue(self.liquidity, now);
        let r1 = self.reward_infos[1].spec_accrue(self.liquidity, now);
        let r2 = self.reward_infos[2].spec_accrue(self.liquidity, now);
        if r0 is Some && r1 is Some && r2 is Some {
            Some(
                PoolState {
                    reward_infos: vstd::array::spec_array_update(
                        vstd::array::spec_array_update(
                            vstd::array::spec_array_update(self.reward_infos, 0, r0->0),
                            1,
                            r1->0,
                        ),
                        2,
                        r2->0,
                    ),
                    ..*self
                },
            )
        } else {
            None
        }
    }

    /// Brings every reward schedule up to `now`. Anyone may call this.
    /// Refused with `MathOverflow`, and nothing changed, exactly where an
    /// accumulator would overflow.
    pub fn update_reward_infos(&mut self, now: u64) -> (res: Result<(), ErrorCode>)
        ensures
            match old(self).spec_update_reward_infos(now) {
                Some(next) => res is Ok && *final(self) == next,
                None => res == Err::<(), ErrorCode>(ErrorCode::MathOverflow) && *final(self)
                    == *old(self),
            },
            old(self).wf() ==> final(self).wf(),
            forall|i: int|
                #![trigger final(self).reward_infos[i]]
                0 <= i < 3 ==> {
                    let before = old(self).reward_infos[i];
                    let after = final(self).reward_infos[i];
                    &&& after.reward_growth_global_x64 >= before.reward_growth_global_x64
                    &&& after.reward_total_emissioned >= before.reward_total_emissioned
                    &&& after.reward_claimed == before.reward_claimed
                },
    {
        let r0 = match self.reward_infos[0].accrue(self.liquidity, now) {
            Some(r) => r,
            None => {
                return Err(ErrorCode::MathOverflow);
            },
        };
        let r1 = match self.reward_infos[1].accrue(self.liquidity, now) {
            Some(r) => r,
            None => {
                return Err(ErrorCode::MathOverflow);
            },
        };
        let r2 = match self.reward_infos[2].accrue(self.liquidity, now) {
            Some(r) => r,
            None => {
                return Err(ErrorCode::MathOverflow);
            },
        };
        proof {
            crate::reward::lemma_accrue_monotonic(self.reward_infos[0], self.liquidity, now);
            crate::reward::lemma_accrue_monotonic(self.reward_infos[1], self.liquidity, now);
            crate::reward::lemma_accrue_monotonic(self.reward_infos[2], self.liquidity, now);
        }
        self.reward_infos[0] = r0;
        self.reward_infos[1] = r1;
        self.reward_infos[2] = r2;
        Ok(())
    }
}

impl PoolState {
    /// The pool with reward schedule `index` replaced by `slot`.
    pub open spec fn with_reward(&self, index: int, slot: RewardInfo) -> PoolState {
        PoolState {
            reward_infos: vstd::array::spec_array_update(self.reward_infos, index, slot),
            ..*self
        }
    }

    /// Whether `actor` may fund rewards of pools of the fee tier `config`:
    /// the whitelist lists the actor, or the actor owns the fee tier.
    pub open spec fn may_fund(actor: Pubkey, config: AmmConfig, whitelist: OperationState) -> bool {
        whitelist.authorizes(actor@) || actor@ == config.owner@
    }

    /// What `initialize_reward` does.
    ///
    /// The checks come in this order: the index names a slot; the funder may
    /// fund; the slot runs no cycle; the window opens before it ends. Then
    /// the slot starts a cycle with the funder as its authority, and with the
    /// mint and the vault as given.
    ///
    /// No mint is refused: the slot, the funder and the window are all that
    /// stand between a call and a cycle, and a funder who may fund is trusted
    /// with the choice of the token. The list of permitted mints is there for
    /// callers to ask (`is_whitelisted_mint`); this operation does not read
    /// it.
    pub open spec fn spec_initialize_reward(
        &self,
        funder: Pubkey,
        config: AmmConfig,
        whitelist: OperationState,
        reward_index: u8,
        param: InitializeRewardParam,
        token_mint: Pubkey,
        token_vault: Pubkey,
    ) -> Result<PoolState, ErrorCode> {
        if reward_index >= 3 {
            Err(ErrorCode::InvalidRewardIndex)
        } else if !Self::may_fund(funder, config, whitelist) {
            Err(ErrorCode::Unauthorized)
        } else if self.reward_infos[reward_index as int].reward_state == RewardState::Initialized {
            Err(ErrorCode::RewardAlreadyActive)
        } else if param.open_time >= param.end_time {
            Err(ErrorCode::InvalidWindow)
        } else {
            Ok(
                self.with_reward(
                    reward_index as int,
                    self.reward_infos[reward_index as int].spec_start(
                        param,
                        token_mint,
                        token_vault,
                        funder,
                    ),
                ),
            )
        }
    }

    /// What `set_reward_params` does.
    ///
    /// The checks come in this order: the index names a slot; the actor is
    /// the slot's authority or may fund; the slot can be brought up to `now`
    /// without overflow; the slot, brought up to `now`, accepts the new rate
    /// and window. Then the slot is the one brought up to `now` at its old
    /// rate, with the new rate and window. The two other slots stay as they
    /// are.
    pub open spec fn spec_set_reward_params(
        &self,
        actor: Pubkey,
        config: AmmConfig,
        whitelist: OperationState,
        now: u64,
        reward_index: u8,
        emissions_per_second_x64: u128,
        open_time: u64,
        end_time: u64,
    ) -> Result<PoolState, ErrorCode> {
        if reward_index >= 3 {
            Err(ErrorCode::InvalidRewardIndex)
        } else if !(actor@ == self.reward_infos[reward_index as int].authority@ || Self::may_fund(
            actor,
            config,
            whitelist,
        )) {
            Err(ErrorCode::Unauthorized)
        } else {
            match self.reward_infos[reward_index as int].spec_accrue(self.liquidity, now) {
                None => Err(ErrorCode::MathOverflow),
                Some(settled) => match settled.spec_set_params(
                    now,
                    emissions_per_second_x64,
                    open_time,
                    end_time,
                ) {
                    Err(e) => Err(e),
                    Ok(slot) => Ok(self.with_reward(reward_index as int, slot)),
                },
            }
        }
    }

    /// What `collect_remaining_rewards` does.
    ///
    /// The checks come in this order: the index names a slot; the funder is
    /// the slot's authority; the slot has ended. Then what the slot has
    /// emitted and not handed out goes to the funder, and counts as claimed.
    pub open spec fn spec_collect_remaining_rewards(&self, funder: Pubkey, reward_index: u8) -> Result<
        (PoolState, u64),
        ErrorCode,
    > {
        if reward_index >= 3 {
            Err(ErrorCode::InvalidRewardIndex)
        } else {
            let slot = self.reward_infos[reward_index as int];
            if funder@ != slot.authority@ {
                Err(ErrorCode::Unauthorized)
            } else if slot.reward_state != RewardState::Ended {
                Err(ErrorCode::RewardNotEnded)
            } else {
                Ok(
                    (
                        self.with_reward(
                            reward_index as int,
                            RewardInfo { reward_claimed: slot.reward_total_emissioned, ..slot },
                        ),
                        slot.spec_unclaimed(),
                    ),
                )
            }
        }
    }

    /// What `record_reward_claim` does.
    ///
    /// The checks come in this order: collecting rewards is switched on; the
    /// index names a slot; the slot was set up; the slot has emitted what is
    /// claimed on top of what it has handed out. Then the amount counts as
    /// claimed.
    pub open spec fn spec_record_reward_claim(&self, reward_index: u8, amount: u64) -> Result<
        PoolState,
        ErrorCode,
    > {
        if self.disables(PoolStatusBitIndex::CollectReward) {
            Err(ErrorCode::StatusDisabled)
        } else if reward_index >= 3 {
            Err(ErrorCode::InvalidRewardIndex)
        } else {
            let slot = self.reward_infos[reward_index as int];
            if slot.reward_state == RewardState::Uninitialized {
                Err(ErrorCode::RewardNotInitialized)
            } else if slot.reward_claimed + amount > slot.reward_total_emissioned {
                Err(ErrorCode::InsufficientRewards)
            } else {
                Ok(
                    self.with_reward(
                        reward_index as int,
                        RewardInfo {
                            reward_claimed: (slot.reward_claimed + amount) as u64,
                            ..slot
                        },
                    ),
                )
            }
        }
    }

    /// Whether `index` is the first reward slot that runs no cycle.
    pub open spec fn is_first_idle_slot(&self, index: int) -> bool {
        &&& 0 <= index < 3
        &&& self.reward_infos[index].reward_state != RewardState::Initialized
        &&& forall|i: int|
            0 <= i < index ==> (#[trigger] self.reward_infos[i]).reward_state
                == RewardState::Initialized
    }

    /// The first reward slot that runs no cycle, for a caller that leaves the
    /// choice of the slot to the pool; `None` where all three run.
    pub fn first_idle_reward_slot(&self) -> (out: Option<u8>)
        ensures
            match out {
                Some(index) => self.is_first_idle_slot(index as int),
                None => forall|i: int|
                    0 <= i < 3 ==> (#[trigger] self.reward_infos[i]).reward_state
                        == RewardState::Initialized,
            },
    {
        if !self.reward_infos[0].initialized() {
            Some(0)
        } else if !self.reward_infos[1].initialized() {
            Some(1)
        } else if !self.reward_infos[2].initialized() {
            Some(2)
        } else {
            None
        }
    }

    /// Whether `actor` may fund rewards of pools of the fee tier `config`.
    pub fn check_may_fund(actor: &Pubkey, config: &AmmConfig, whitelist: &OperationState) -> (r:
        bool)
        ensures
            r == Self::may_fund(*actor, *config, *whitelist),
    {
        whitelist.is_authorized_funder(actor) || *actor == config.owner
    }

    /// Starts a reward cycle in slot `reward_index` on behalf of `funder`.
    /// A refused call leaves the pool as it was.
    pub fn initialize_reward(
        &mut self,
        funder: &Pubkey,
        config: &AmmConfig,
        whitelist: &OperationState,
        reward_index: u8,
        param: InitializeRewardParam,
        token_mint: Pubkey,
        token_vault: Pubkey,
    ) -> (res: Result<(), ErrorCode>)
        ensures
            match old(self).spec_initialize_reward(
                *funder,
                *config,
                *whitelist,
                reward_index,
                param,
                token_mint,
                token_vault,
            ) {
                Ok(next) => res is Ok && *final(self) == next,
                Err(e) => res == Err::<(), ErrorCode>(e) && *final(self) == *old(self),
            },
            old(self).wf() ==> final(self).wf(),
    {
        if reward_index >= 3 {
            return Err(ErrorCode::InvalidRewardIndex);
        }
        let index = reward_index as usize;
        let slot = self.reward_infos[index];
        if !Self::check_may_fund(funder, config, whitelist) {
            return Err(ErrorCode::Unauthorized);
        }
        if slot.initialized() {
            return Err(ErrorCode::RewardAlreadyActive);
        }
        if param.open_time >= param.end_time {
            return Err(ErrorCode::InvalidWindow);
        }
        let started = slot.start(param, token_mint, token_vault, *funder);
        self.reward_infos[index] = started;
        Ok(())
    }

    /// Changes the rate and the window of reward slot `reward_index` on
    /// behalf of `actor`, after bringing that slot up to `now`. A refused
    /// call leaves the pool as it was; a granted one leaves the two other
    /// slots as they were.
    pub fn set_reward_params(
        &mut self,
        actor: &Pubkey,
        config: &AmmConfig,
        whitelist: &OperationState,
        now: u64,
        reward_index: u8,
        emissions_per_second_x64: u128,
        open_time: u64,
        end_time: u64,
    ) -> (res: Result<(), ErrorCode>)
        ensures
            match old(self).spec_set_reward_params(
                *actor,
                *config,
                *whitelist,
                now,
                reward_index,
                emissions_per_second_x64,
                open_time,
                end_time,
            ) {
                Ok(next) => res is Ok && *final(self) == next,
                Err(e) => res == Err::<(), ErrorCode>(e) && *final(self) == *old(self),
            },
            old(self).wf() ==> final(self).wf(),
    {
        if reward_index >= 3 {
            return Err(ErrorCode::InvalidRewardIndex);
        }
        let index = reward_index as usize;
        if !(*actor == self.reward_infos[index].authority || Self::check_may_fund(
            actor,
            config,
            whitelist,
        )) {
            return Err(ErrorCode::Unauthorized);
        }
        let settled = match self.reward_infos[index].accrue(self.liquidity, now) {
            Some(settled) => settled,
            None => {
                return Err(ErrorCode::MathOverflow);
            },
        };
        let slot = match settled.set_params(now, emissions_per_second_x64, open_time, end_time) {
            Ok(slot) => slot,
            Err(e) => {
                return Err(e);
            },
        };
        self.reward_infos[index] = slot;
        Ok(())
    }

    /// Hands what reward slot `reward_index` has emitted and not handed out
    /// to `funder`, and returns the amount to transfer. A refused call leaves
    /// the pool as it was.
    pub fn collect_remaining_rewards(&mut self, funder: &Pubkey, reward_index: u8) -> (res: Result<
        u64,
        ErrorCode,
    >)
        ensures
            match old(self).spec_collect_remaining_rewards(*funder, reward_index) {
                Ok((next, amount)) => res == Ok::<u64, ErrorCode>(amount) && *final(self) == next,
                Err(e) => res == Err::<u64, ErrorCode>(e) && *final(self) == *old(self),
            },
            old(self).wf() ==> final(self).wf(),
    {
        if reward_index >= 3 {
            return Err(ErrorCode::InvalidRewardIndex);
        }
        let index = reward_index as usize;
        let slot = self.reward_infos[index];
        if *funder != slot.authority {
            return Err(ErrorCode::Unauthorized);
        }
        if slot.reward_state != RewardState::Ended {
            return Err(ErrorCode::RewardNotEnded);
        }
        let amount = slot.unclaimed();
        self.reward_infos[index].reward_claimed = slot.reward_total_emissioned;
        Ok(amount)
    }

    /// Counts `amount` of the reward of slot `reward_index` as handed out to
    /// a liquidity provider. A refused call leaves the pool as it was.
    pub fn record_reward_claim(&mut self, reward_index: u8, amount: u64) -> (res: Result<
        (),
        ErrorCode,
    >)
        ensures
            match old(self).spec_record_reward_claim(reward_index, amount) {
                Ok(next) => res is Ok && *final(self) == next,
                Err(e) => res == Err::<(), ErrorCode>(e) && *final(self) == *old(self),
            },
            old(self).wf() ==> final(self).wf(),
    {
        if !self.get_status_by_bit(PoolStatusBitIndex::CollectReward) {
            return Err(ErrorCode::StatusDisabled);
        }
        if reward_index >= 3 {
            return Err(ErrorCode::InvalidRewardIndex);
        }
        let index = reward_index as usize;
        let slot = self.reward_infos[index];
        if slot.reward_state == RewardState::Uninitialized {
            return Err(ErrorCode::RewardNotInitialized);
        }
        if slot.reward_claimed > slot.reward_total_emissioned || amount
            > slot.reward_total_emissioned - slot.reward_claimed {
            return Err(ErrorCode::InsufficientRewards);
        }
        self.reward_infos[index].reward_claimed = slot.reward_claimed + amount;
        Ok(())
    }
}

/// A change of rate and end on a slot that runs, with a rate that is not
/// lower and an end after `now`, is granted to whoever may ask for it, unless
/// bringing the slot up to `now` would overflow an accumulator. The slot then
/// has the new rate and end, has lost nothing of what it had accumulated and
/// emitted, has claimed what it had claimed, and is accounted for no further
/// than its end; the two other slots are as they were.
pub proof fn lemma_set_reward_params_on_running_slot(
    pool: PoolState,
    actor: Pubkey,
    config: AmmConfig,
    whitelist: OperationState,
    now: u64,
    reward_index: u8,
    emissions_per_second_x64: u128,
    open_time: u64,
    end_time: u64,
)
    requires
        reward_index < 3,
        pool.reward_infos[reward_index as int].reward_state == RewardState::Initialized,
        now < pool.reward_infos[reward_index as int].end_time,
        emissions_per_second_x64 >= pool.reward_infos[reward_index as int].emissions_per_second_x64,
        end_time > now,
        actor@ == pool.reward_infos[reward_index as int].authority@ || PoolState::may_fund(
            actor,
            config,
            whitelist,
        ),
        pool.reward_infos[reward_index as int].spec_accrue(pool.liquidity, now) is Some,
    ensures
        pool.spec_set_reward_params(
            actor,
            config,
            whitelist,
            now,
            reward_index,
            emissions_per_second_x64,
            open_time,
            end_time,
        ) is Ok,
        ({
            let before = pool.reward_infos[reward_index as int];
            let next = pool.spec_set_reward_params(
                actor,
                config,
                whitelist,
                now,
                reward_index,
                emissions_per_second_x64,
                open_time,
                end_time,
            )->Ok_0;
            let after = next.reward_infos[reward_index as int];
            &&& after.reward_state == RewardState::Initialized
            &&& after.emissions_per_second_x64 == emissions_per_second_x64
            &&& after.end_time == end_time
            &&& after.open_time == before.open_time
            &&& after.reward_growth_global_x64 >= before.reward_growth_global_x64
            &&& after.reward_total_emissioned >= before.reward_total_emissioned
            &&& after.reward_claimed == before.reward_claimed
            &&& after.last_update_time <= after.end_time
            &&& forall|i: int|
                0 <= i < 3 && i != reward_index ==> next.reward_infos[i] == pool.reward_infos[i]
            &&& next == pool.with_reward(reward_index as int, after)
        }),
{
    crate::reward::lemma_accrue_monotonic(
        pool.reward_infos[reward_index as int],
        pool.liquidity,
        now,
    );
}

/// The pool after a series of calls of `update_reward_infos`, one at each of
/// `times` in turn; a call that is refused leaves the pool as it was.
pub open spec fn spec_update_rewards_at_each(pool: PoolState, times: Seq<u64>) -> PoolState
    decreases times.len(),
{
    if times.len() == 0 {
        pool
    } else {
        let before = spec_update_rewards_at_each(pool, times.drop_last());
        match before.spec_update_reward_infos(times.last()) {
            Some(next) => next,
            None => before,
        }
    }
}

/// One call of `update_reward_infos` lowers no accumulator of any schedule,
/// leaves what was claimed alone, and keeps the pool well formed.
pub proof fn lemma_reward_update_monotonic(pool: PoolState, now: u64, i: int)
    requires
        0 <= i < 3,
        pool.spec_update_reward_infos(now) is Some,
    ensures
        pool.spec_update_reward_infos(now)->0.reward_infos[i].reward_growth_global_x64
            >= pool.reward_infos[i].reward_growth_global_x64,
        pool.spec_update_reward_infos(now)->0.reward_infos[i].reward_total_emissioned
            >= pool.reward_infos[i].reward_total_emissioned,
        pool.spec_update_reward_infos(now)->0.reward_infos[i].reward_claimed
            == pool.reward_infos[i].reward_claimed,
        pool.spec_update_reward_infos(now)->0.reward_infos[i] == pool.reward_infos[i].spec_accrue(
            pool.liquidity,
            now,
        )->0,
{
    crate::reward::lemma_accrue_monotonic(pool.reward_infos[i], pool.liquidity, now);
}

/// Over any series of calls of `update_reward_infos`, and so over any with
/// times that do not go back, no schedule's growth accumulator or emitted
/// total ever goes down, and a schedule that had claimed no more than it had
/// emitted still has.
pub proof fn lemma_reward_updates_monotonic(pool: PoolState, times: Seq<u64>, i: int)
    requires
        0 <= i < 3,
    ensures
        spec_update_rewards_at_each(pool, times).reward_infos[i].reward_growth_global_x64
            >= pool.reward_infos[i].reward_growth_global_x64,
        spec_update_rewards_at_each(pool, times).reward_infos[i].reward_total_emissioned
            >= pool.reward_infos[i].reward_total_emissioned,
        spec_update_rewards_at_each(pool, times).reward_infos[i].reward_claimed
            == pool.reward_infos[i].reward_claimed,
        pool.reward_infos[i].reward_claimed <= pool.reward_infos[i].reward_total_emissioned
            ==> spec_update_rewards_at_each(pool, times).reward_infos[i].reward_claimed
            <= spec_update_rewards_at_each(pool, times).reward_infos[i].reward_total_emissioned,
    decreases times.len(),
{
    if times.len() > 0 {
        let before = spec_update_rewards_at_each(pool, times.drop_last());
        lemma_reward_updates_monotonic(pool, times.drop_last(), i);
        if before.spec_update_reward_infos(times.last()) is Some {
            lemma_reward_update_monotonic(before, times.last(), i);
        }
    }
}

/// A second call of `update_reward_infos` at the same time changes nothing.
pub proof fn lemma_reward_update_idempotent(pool: PoolState, now: u64)
    requires
        pool.spec_update_reward_infos(now) is Some,
    ensures
        pool.spec_update_reward_infos(now)->0.spec_update_reward_infos(now)
            == pool.spec_update_reward_infos(now),
{
    let next = pool.spec_update_reward_infos(now)->0;
    crate::reward::lemma_accrue_idempotent(pool.reward_infos[0], pool.liquidity, now);
    crate::reward::lemma_accrue_idempotent(pool.reward_infos[1], pool.liquidity, now);
    crate::reward::lemma_accrue_idempotent(pool.reward_infos[2], pool.liquidity, now);
    let again = next.spec_update_reward_infos(now);
    assert(again->0.reward_infos =~= next.reward_infos);
}

} // verus!
