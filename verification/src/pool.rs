//! The ledger of one pool: its price and tick, the liquidity in range, the
//! fee and reward accumulators, the fees owed to the protocol and the fund,
//! the status byte and the map of initialized tick arrays. This file holds
//! the record, its creation, its address, the status byte and the collection
//! of fees.

use vstd::prelude::*;
use crate::config::AmmConfig;
use crate::error::ErrorCode;
use crate::pda::{
    id,
    pool_address_at,
    pool_signer_seeds,
    program_address,
    seeds_view,
    spec_pool_seeds,
    ID_BYTES,
};
use crate::pubkey::{bytes_lt, Pubkey};
use crate::reward::{RewardInfo, REWARD_NUM};
use crate::status::{lemma_status_bits, status_disables, PoolStatus, PoolStatusBitIndex, STATUS_MASK};

verus! {

/// Number of 64-bit words in the tick-array bitmap.
pub const TICK_ARRAY_BITMAP_WORDS: usize = 16;

/// Number of bits in the tick-array bitmap.
pub const TICK_ARRAY_BITMAP_BITS: u16 = 1024;

/// The ledger of one pool.
#[derive(Clone, Copy, Debug, PartialEq, Eq)]
pub struct PoolState {
    /// Bump of the pool's derived address.
    pub bump: [u8; 1],
    /// The fee tier the pool belongs to.
    pub amm_config: Pubkey,
    /// Who created the pool, and administers it.
    pub owner: Pubkey,
    /// The lower mint of the pair, in byte order.
    pub token_mint_0: Pubkey,
    /// The higher mint of the pair.
    pub token_mint_1: Pubkey,
    /// Vault of token 0.
    pub token_vault_0: Pubkey,
    /// Vault of token 1.
    pub token_vault_1: Pubkey,
    /// The pool's price history.
    pub observation_key: Pubkey,
    /// Decimals of token 0.
    pub mint_decimals_0: u8,
    /// Decimals of token 1.
    pub mint_decimals_1: u8,
    /// Least distance between two usable ticks.
    pub tick_spacing: u16,
    /// Liquidity in range.
    pub liquidity: u128,
    /// Square root of the price of token 1 in token 0, in Q64.64.
    pub sqrt_price_x64: u128,
    /// The tick that belongs to the price.
    pub tick_current: i32,
    /// Reserved.
    pub padding3: u16,
    /// Reserved.
    pub padding4: u16,
    /// Fees of token 0 per unit of liquidity since the pool began, in Q64.64.
    pub fee_growth_global_0_x64: u128,
    /// Fees of token 1 per unit of liquidity since the pool began, in Q64.64.
    pub fee_growth_global_1_x64: u128,
    /// Fees of token 0 owed to the protocol.
    pub protocol_fees_token_0: u64,
    /// Fees of token 1 owed to the protocol.
    pub protocol_fees_token_1: u64,
    /// Token 0 swapped in since the pool began.
    pub swap_in_amount_token_0: u128,
    /// Token 1 swapped out since the pool began.
    pub swap_out_amount_token_1: u128,
    /// Token 1 swapped in since the pool began.
    pub swap_in_amount_token_1: u128,
    /// Token 0 swapped out since the pool began.
    pub swap_out_amount_token_0: u128,
    /// Which classes of operation are switched off.
    pub status: u8,
    /// Reserved.
    pub padding: [u8; 7],
    /// The reward schedules.
    pub reward_infos: [RewardInfo; 3],
    /// One bit for each tick array: set where the array is initialized.
    pub tick_array_bitmap: [u64; 16],
    /// Fees of token 0 earned by liquidity providers.
    pub total_fees_token_0: u64,
    /// Fees of token 0 claimed by liquidity providers.
    pub total_fees_claimed_token_0: u64,
    /// Fees of token 1 earned by liquidity providers.
    pub total_fees_token_1: u64,
    /// Fees of token 1 claimed by liquidity providers.
    pub total_fees_claimed_token_1: u64,
    /// Fees of token 0 owed to the fund.
    pub fund_fees_token_0: u64,
    /// Fees of token 1 owed to the fund.
    pub fund_fees_token_1: u64,
    /// Time from which the pool may be swapped in.
    pub open_time: u64,
    /// Epoch of the most recent update, kept for the host.
    pub recent_epoch: u64,
    /// Reserved.
    pub padding1: [u64; 24],
    /// Reserved.
    pub padding2: [u64; 32],
}

/// What a new pool is made from.
#[derive(Clone, Copy, Debug, PartialEq, Eq)]
pub struct PoolParams {
    /// Bump of the pool's derived address.
    pub bump: u8,
    /// The fee tier the pool belongs to.
    pub amm_config: Pubkey,
    /// Who creates the pool.
    pub owner: Pubkey,
    /// The lower mint of the pair.
    pub token_mint_0: Pubkey,
    /// The higher mint of the pair.
    pub token_mint_1: Pubkey,
    /// Vault of token 0.
    pub token_vault_0: Pubkey,
    /// Vault of token 1.
    pub token_vault_1: Pubkey,
    /// The pool's price history.
    pub observation_key: Pubkey,
    /// Decimals of token 0.
    pub mint_decimals_0: u8,
    /// Decimals of token 1.
    pub mint_decimals_1: u8,
    /// Tick spacing of the fee tier.
    pub tick_spacing: u16,
    /// The initial price.
    pub sqrt_price_x64: u128,
    /// The tick that belongs to the initial price.
    pub tick_current: i32,
    /// Time from which the pool may be swapped in.
    pub open_time: u64,
}

/// What a collection hands out of an accrued balance: what was asked for, but
/// no more than there is.
pub open spec fn collectable(requested: u64, accrued: u64) -> u64 {
    if requested <= accrued {
        requested
    } else {
        accrued
    }
}

/// Whether bit `bit` of a 64-bit word is set.
pub open spec fn word_bit(word: u64, bit: u64) -> bool {
    (word >> bit) & 1 == 1
}

/// Whether bit `i` of a bitmap of 64-bit words is set.
pub open spec fn bitmap_bit(bitmap: Seq<u64>, i: int) -> bool {
    word_bit(bitmap[i / 64], (i % 64) as u64)
}

impl PoolState {
    /// Number of bytes a stored pool takes, its 8-byte record header
    /// included.
    pub const LEN: usize = 8 + 1 + 32 * 7 + 1 + 1 + 2 + 16 + 16 + 4 + 2 + 2 + 16 + 16 + 8 + 8 + 16
        + 16 + 16 + 16 + 8 + RewardInfo::LEN * REWARD_NUM + 8 * 16 + 512;

    /// The pool that `new` makes: the identities, the price and the opening
    /// time as given; every accumulator, counter and reserved field zero;
    /// every class of operation switched on; no reward schedule set up; no
    /// tick array initialized.
    pub open spec fn spec_new(p: PoolParams) -> PoolState {
        PoolState {
            bump: vstd::array::spec_array_fill_for_copy_type::<u8, 1>(p.bump),
            amm_config: p.amm_config,
            owner: p.owner,
            token_mint_0: p.token_mint_0,
            token_mint_1: p.token_mint_1,
            token_vault_0: p.token_vault_0,
            token_vault_1: p.token_vault_1,
            observation_key: p.observation_key,
            mint_decimals_0: p.mint_decimals_0,
            mint_decimals_1: p.mint_decimals_1,
            tick_spacing: p.tick_spacing,
            liquidity: 0,
            sqrt_price_x64: p.sqrt_price_x64,
            tick_current: p.tick_current,
            padding3: 0,
            padding4: 0,
            fee_growth_global_0_x64: 0,
            fee_growth_global_1_x64: 0,
            protocol_fees_token_0: 0,
            protocol_fees_token_1: 0,
            swap_in_amount_token_0: 0,
            swap_out_amount_token_1: 0,
            swap_in_amount_token_1: 0,
            swap_out_amount_token_0: 0,
            status: 0,
            padding: vstd::array::spec_array_fill_for_copy_type::<u8, 7>(0u8),
            reward_infos: vstd::array::spec_array_fill_for_copy_type::<RewardInfo, 3>(
                RewardInfo::spec_new(),
            ),
            tick_array_bitmap: vstd::array::spec_array_fill_for_copy_type::<u64, 16>(0u64),
            total_fees_token_0: 0,
            total_fees_claimed_token_0: 0,
            total_fees_token_1: 0,
            total_fees_claimed_token_1: 0,
            fund_fees_token_0: 0,
            fund_fees_token_1: 0,
            open_time: p.open_time,
            recent_epoch: 0,
            padding1: vstd::array::spec_array_fill_for_copy_type::<u64, 24>(0u64),
            padding2: vstd::array::spec_array_fill_for_copy_type::<u64, 32>(0u64),
        }
    }

    /// What holds of every pool that the operations of this crate produced:
    /// the mints are in strictly increasing byte order, the reserved bits of
    /// the status byte are zero, and every reward schedule is well formed.
    pub open spec fn wf(&self) -> bool {
        &&& bytes_lt(self.token_mint_0@, self.token_mint_1@)
        &&& self.status <= STATUS_MASK
        &&& forall|i: int| 0 <= i < 3 ==> (#[trigger] self.reward_infos[i]).wf()
    }

    /// Whether the pool switches the class `bit` off.
    pub open spec fn disables(&self, bit: PoolStatusBitIndex) -> bool {
        status_disables(self.status, bit)
    }

    /// Whether tick array `i` is initialized.
    pub open spec fn tick_array_initialized(&self, i: int) -> bool {
        bitmap_bit(self.tick_array_bitmap@, i)
    }

    /// A new pool. Refused with `InvalidTokenOrder` exactly where the first
    /// mint is not strictly below the second in byte order.
    pub fn new(p: PoolParams) -> (res: Result<PoolState, ErrorCode>)
        ensures
            res == if bytes_lt(p.token_mint_0@, p.token_mint_1@) {
                Ok::<PoolState, ErrorCode>(PoolState::spec_new(p))
            } else {
                Err::<PoolState, ErrorCode>(ErrorCode::InvalidTokenOrder)
            },
            res is Ok ==> res->Ok_0.wf(),
    {
        if !p.token_mint_0.is_below(&p.token_mint_1) {
            return Err(ErrorCode::InvalidTokenOrder);
        }
        let pool = PoolState {
            bump: [p.bump;1],
            amm_config: p.amm_config,
            owner: p.owner,
            token_mint_0: p.token_mint_0,
            token_mint_1: p.token_mint_1,
            token_vault_0: p.token_vault_0,
            token_vault_1: p.token_vault_1,
            observation_key: p.observation_key,
            mint_decimals_0: p.mint_decimals_0,
            mint_decimals_1: p.mint_decimals_1,
            tick_spacing: p.tick_spacing,
            liquidity: 0,
            sqrt_price_x64: p.sqrt_price_x64,
            tick_current: p.tick_current,
            padding3: 0,
            padding4: 0,
            fee_growth_global_0_x64: 0,
            fee_growth_global_1_x64: 0,
            protocol_fees_token_0: 0,
            protocol_fees_token_1: 0,
            swap_in_amount_token_0: 0,
            swap_out_amount_token_1: 0,
            swap_in_amount_token_1: 0,
            swap_out_amount_token_0: 0,
            status: 0,
            padding: [0u8;7],
            reward_infos: [RewardInfo::new();3],
            tick_array_bitmap: [0u64;16],
            total_fees_token_0: 0,
            total_fees_claimed_token_0: 0,
            total_fees_token_1: 0,
            total_fees_claimed_token_1: 0,
            fund_fees_token_0: 0,
            fund_fees_token_1: 0,
            open_time: p.open_time,
            recent_epoch: 0,
            padding1: [0u64;24],
            padding2: [0u64;32],
        };
        Ok(pool)
    }

    /// Whether the class `bit` is switched on.
    pub fn get_status_by_bit(&self, bit: PoolStatusBitIndex) -> (enabled: bool)
        ensures
            enabled == !self.disables(bit),
    {
        let position = bit.position();
        (self.status >> position) & 1 != 1
    }

    /// The status byte taken apart.
    pub fn status_flags(&self) -> (flags: PoolStatus)
        ensures
            flags == PoolStatus::spec_from_bits(self.status),
    {
        PoolStatus::from_bits(self.status)
    }

    /// Replaces the status byte on behalf of `actor`, who must be the pool's
    /// owner. The five low bits of `status` are taken over; the reserved bits
    /// are left zero.
    pub fn update_status(&mut self, actor: &Pubkey, status: u8) -> (res: Result<(), ErrorCode>)
        ensures
            res == if actor@ == old(self).owner@ {
                Ok::<(), ErrorCode>(())
            } else {
                Err::<(), ErrorCode>(ErrorCode::Unauthorized)
            },
            *final(self) == if actor@ == old(self).owner@ {
                PoolState { status: status & STATUS_MASK, ..*old(self) }
            } else {
                *old(self)
            },
            res is Ok ==> final(self).status_flags_spec() == PoolStatus::spec_from_bits(status),
            res is Ok ==> final(self).status <= STATUS_MASK,
            old(self).wf() ==> final(self).wf(),
    {
        if *actor != self.owner {
            return Err(ErrorCode::Unauthorized);
        }
        proof {
            lemma_status_bits(status);
        }
        self.status = status & STATUS_MASK;
        Ok(())
    }

    /// The status byte taken apart.
    pub open spec fn status_flags_spec(&self) -> PoolStatus {
        PoolStatus::spec_from_bits(self.status)
    }

    /// Hands the pool over to `new_owner` on behalf of `actor`, who must be
    /// the pool's owner.
    pub fn transfer_reward_owner(&mut self, actor: &Pubkey, new_owner: Pubkey) -> (res: Result<
        (),
        ErrorCode,
    >)
        ensures
            res == if actor@ == old(self).owner@ {
                Ok::<(), ErrorCode>(())
            } else {
                Err::<(), ErrorCode>(ErrorCode::Unauthorized)
            },
            *final(self) == if actor@ == old(self).owner@ {
                PoolState { owner: new_owner, ..*old(self) }
            } else {
                *old(self)
            },            old(self).wf() ==> final(self).wf(),
    {
        if *actor != self.owner {
            return Err(ErrorCode::Unauthorized);
        }
        self.owner = new_owner;
        Ok(())
    }

    /// What `collect_protocol_fee` does.
    ///
    /// Only the owner of the fee tier may collect, and only while collecting
    /// fees is switched on. Of each token the pool hands out what was asked
    /// for, but no more than is owed, and owes that much less afterwards.
    pub open spec fn spec_collect_protocol_fee(
        &self,
        actor: Pubkey,
        config: AmmConfig,
        amount_0_requested: u64,
        amount_1_requested: u64,
    ) -> Result<(PoolState, u64, u64), ErrorCode> {
        if actor@ != config.owner@ {
            Err(ErrorCode::Unauthorized)
        } else if self.disables(PoolStatusBitIndex::CollectFee) {
            Err(ErrorCode::StatusDisabled)
        } else {
            let amount_0 = collectable(amount_0_requested, self.protocol_fees_token_0);
            let amount_1 = collectable(amount_1_requested, self.protocol_fees_token_1);
            Ok(
                (
                    PoolState {
                        protocol_fees_token_0: (self.protocol_fees_token_0 - amount_0) as u64,
                        protocol_fees_token_1: (self.protocol_fees_token_1 - amount_1) as u64,
                        ..*self
                    },
                    amount_0,
                    amount_1,
                ),
            )
        }
    }

    /// What `collect_fund_fee` does: as `collect_protocol_fee`, for the fund
    /// owner of the fee tier and the fees owed to the fund.
    pub open spec fn spec_collect_fund_fee(
        &self,
        actor: Pubkey,
        config: AmmConfig,
        amount_0_requested: u64,
        amount_1_requested: u64,
    ) -> Result<(PoolState, u64, u64), ErrorCode> {
        if actor@ != config.fund_owner@ {
            Err(ErrorCode::Unauthorized)
        } else if self.disables(PoolStatusBitIndex::CollectFee) {
            Err(ErrorCode::StatusDisabled)
        } else {
            let amount_0 = collectable(amount_0_requested, self.fund_fees_token_0);
            let amount_1 = collectable(amount_1_requested, self.fund_fees_token_1);
            Ok(
                (
                    PoolState {
                        fund_fees_token_0: (self.fund_fees_token_0 - amount_0) as u64,
                        fund_fees_token_1: (self.fund_fees_token_1 - amount_1) as u64,
                        ..*self
                    },
                    amount_0,
                    amount_1,
                ),
            )
        }
    }

    /// Collects fees owed to the protocol on behalf of `actor`, and returns
    /// the amounts of token 0 and token 1 to transfer. A refused collection
    /// leaves the pool as it was.
    pub fn collect_protocol_fee(
        &mut self,
        actor: &Pubkey,
        config: &AmmConfig,
        amount_0_requested: u64,
        amount_1_requested: u64,
    ) -> (res: Result<(u64, u64), ErrorCode>)
        ensures
            match old(self).spec_collect_protocol_fee(
                *actor,
                *config,
                amount_0_requested,
                amount_1_requested,
            ) {
                Ok((next, amount_0, amount_1)) => res == Ok::<(u64, u64), ErrorCode>(
                    (amount_0, amount_1),
                ) && *final(self) == next,
                Err(e) => res == Err::<(u64, u64), ErrorCode>(e) && *final(self) == *old(self),
            },
            res is Ok ==> {
                &&& res->Ok_0.0 <= amount_0_requested
                &&& res->Ok_0.0 <= old(self).protocol_fees_token_0
                &&& res->Ok_0.1 <= amount_1_requested
                &&& res->Ok_0.1 <= old(self).protocol_fees_token_1
                &&& final(self).protocol_fees_token_0 == old(self).protocol_fees_token_0
                    - res->Ok_0.0
                &&& final(self).protocol_fees_token_1 == old(self).protocol_fees_token_1
                    - res->Ok_0.1
            },
            old(self).wf() ==> final(self).wf(),
    {
        if *actor != config.owner {
            return Err(ErrorCode::Unauthorized);
        }
        if !self.get_status_by_bit(PoolStatusBitIndex::CollectFee) {
            return Err(ErrorCode::StatusDisabled);
        }
        let amount_0 = if amount_0_requested <= self.protocol_fees_token_0 {
            amount_0_requested
        } else {
            self.protocol_fees_token_0
        };
        let amount_1 = if amount_1_requested <= self.protocol_fees_token_1 {
            amount_1_requested
        } else {
            self.protocol_fees_token_1
        };
        self.protocol_fees_token_0 = self.protocol_fees_token_0 - amount_0;
        self.protocol_fees_token_1 = self.protocol_fees_token_1 - amount_1;
        Ok((amount_0, amount_1))
    }

    /// Collects fees owed to the fund on behalf of `actor`, and returns the
    /// amounts of token 0 and token 1 to transfer. A refused collection
    /// leaves the pool as it was.
    pub fn collect_fund_fee(
        &mut self,
        actor: &Pubkey,
        config: &AmmConfig,
        amount_0_requested: u64,
        amount_1_requested: u64,
    ) -> (res: Result<(u64, u64), ErrorCode>)
        ensures
            match old(self).spec_collect_fund_fee(
                *actor,
                *config,
                amount_0_requested,
                amount_1_requested,
            ) {
                Ok((next, amount_0, amount_1)) => res == Ok::<(u64, u64), ErrorCode>(
                    (amount_0, amount_1),
                ) && *final(self) == next,
                Err(e) => res == Err::<(u64, u64), ErrorCode>(e) && *final(self) == *old(self),
            },
            res is Ok ==> {
                &&& res->Ok_0.0 <= amount_0_requested
                &&& res->Ok_0.0 <= old(self).fund_fees_token_0
                &&& res->Ok_0.1 <= amount_1_requested
                &&& res->Ok_0.1 <= old(self).fund_fees_token_1
                &&& final(self).fund_fees_token_0 == old(self).fund_fees_token_0 - res->Ok_0.0
                &&& final(self).fund_fees_token_1 == old(self).fund_fees_token_1 - res->Ok_0.1
            },
            old(self).wf() ==> final(self).wf(),
    {
        if *actor != config.fund_owner {
            return Err(ErrorCode::Unauthorized);
        }
        if !self.get_status_by_bit(PoolStatusBitIndex::CollectFee) {
            return Err(ErrorCode::StatusDisabled);
        }
        let amount_0 = if amount_0_requested <= self.fund_fees_token_0 {
            amount_0_requested
        } else {
            self.fund_fees_token_0
        };
        let amount_1 = if amount_1_requested <= self.fund_fees_token_1 {
            amount_1_requested
        } else {
            self.fund_fees_token_1
        };
        self.fund_fees_token_0 = self.fund_fees_token_0 - amount_0;
        self.fund_fees_token_1 = self.fund_fees_token_1 - amount_1;
        Ok((amount_0, amount_1))
    }
}

/// A collection hands out no more than was asked for and no more than was
/// owed, and two collections in a row with the same request hand out no more
/// together than was owed before the first.
pub proof fn lemma_collect_twice(requested: u64, accrued: u64)
    ensures
        collectable(requested, accrued) <= requested,
        collectable(requested, accrued) <= accrued,
        collectable(requested, accrued) + collectable(
            requested,
            (accrued - collectable(requested, accrued)) as u64,
        ) <= accrued,
{
}

/// Two collections of protocol fees in a row with the same request: where the
/// first is granted so is the second, each leaves the pool owing exactly what
/// it handed out less, and together they hand out no more of either token than
/// the pool owed before the first.
pub proof fn lemma_collect_protocol_fee_twice(
    pool: PoolState,
    actor: Pubkey,
    config: AmmConfig,
    amount_0_requested: u64,
    amount_1_requested: u64,
)
    requires
        pool.spec_collect_protocol_fee(actor, config, amount_0_requested, amount_1_requested)
            is Ok,
    ensures
        ({
            let first = pool.spec_collect_protocol_fee(
                actor,
                config,
                amount_0_requested,
                amount_1_requested,
            )->Ok_0;
            let second = first.0.spec_collect_protocol_fee(
                actor,
                config,
                amount_0_requested,
                amount_1_requested,
            );
            &&& first.1 <= amount_0_requested && first.1 <= pool.protocol_fees_token_0
            &&& first.2 <= amount_1_requested && first.2 <= pool.protocol_fees_token_1
            &&& first.0.protocol_fees_token_0 == pool.protocol_fees_token_0 - first.1
            &&& first.0.protocol_fees_token_1 == pool.protocol_fees_token_1 - first.2
            &&& second is Ok
            &&& first.1 + second->Ok_0.1 <= pool.protocol_fees_token_0
            &&& first.2 + second->Ok_0.2 <= pool.protocol_fees_token_1
        }),
{
}

/// The same of two collections of fund fees in a row.
pub proof fn lemma_collect_fund_fee_twice(
    pool: PoolState,
    actor: Pubkey,
    config: AmmConfig,
    amount_0_requested: u64,
    amount_1_requested: u64,
)
    requires
        pool.spec_collect_fund_fee(actor, config, amount_0_requested, amount_1_requested) is Ok,
    ensures
        ({
            let first = pool.spec_collect_fund_fee(
                actor,
                config,
                amount_0_requested,
                amount_1_requested,
            )->Ok_0;
            let second = first.0.spec_collect_fund_fee(
                actor,
                config,
                amount_0_requested,
                amount_1_requested,
            );
            &&& first.1 <= amount_0_requested && first.1 <= pool.fund_fees_token_0
            &&& first.2 <= amount_1_requested && first.2 <= pool.fund_fees_token_1
            &&& first.0.fund_fees_token_0 == pool.fund_fees_token_0 - first.1
            &&& first.0.fund_fees_token_1 == pool.fund_fees_token_1 - first.2
            &&& second is Ok
            &&& first.1 + second->Ok_0.1 <= pool.fund_fees_token_0
            &&& first.2 + second->Ok_0.2 <= pool.fund_fees_token_1
        }),
{
}

impl PoolState {
    /// The seeds of the pool's address, the bump last.
    pub open spec fn spec_seeds(&self) -> Seq<Seq<u8>> {
        spec_pool_seeds(self.amm_config, self.token_mint_0, self.token_mint_1).push(self.bump@)
    }

    /// The seeds of the pool's address: the tag, the fee tier, the two mints
    /// and the bump.
    pub fn seeds(&self) -> (seeds: Vec<Vec<u8>>)
        ensures
            seeds_view(seeds@) == self.spec_seeds(),
            seeds.len() == 5,
    {
        assert(self.bump@ =~= seq![self.bump[0]]);
        pool_signer_seeds(&self.amm_config, &self.token_mint_0, &self.token_mint_1, self.bump[0])
    }

    /// The pool's address: the one that the runtime derives from the pool's
    /// seeds for this program, or `None` where it derives none from them.
    pub fn key(&self) -> (out: Option<Pubkey>)
        ensures
            match out {
                Some(key) => program_address(self.spec_seeds(), ID_BYTES@) == Some(key@),
                None => program_address(self.spec_seeds(), ID_BYTES@) is None,
            },
    {
        let program_id = id();
        assert(self.bump@ =~= seq![self.bump[0]]);
        pool_address_at(
            &program_id,
            &self.amm_config,
            &self.token_mint_0,
            &self.token_mint_1,
            self.bump[0],
        )
    }
}

} // verus!
