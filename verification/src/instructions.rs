//! The operations that callers reach, one function each. Every check comes
//! before any change: a refused operation leaves its context as it was.

use vstd::prelude::*;
use crate::config::AmmConfig;
use crate::context::{
    CollectFundFee,
    CollectProtocolFee,
    CollectRemainingRewards,
    CreateAmmConfig,
    CreateOperationAccount,
    CreatePool,
    InitializeReward,
    SetRewardParams,
    TransferRewardOwner,
    UpdateAmmConfig,
    UpdateOperationAccount,
    UpdatePoolStatus,
    UpdateRewardInfos,
};
use crate::error::ErrorCode;
use crate::operation::{spec_add_keys, spec_remove_keys, OperationState};
use crate::oracle::ObservationState;
use crate::pool::{PoolParams, PoolState};
use crate::pubkey::{bytes_lt, Pubkey};
use crate::reward::InitializeRewardParam;
use crate::status::{PoolStatus, STATUS_MASK};

verus! {

/// Creates the fee tier number `index`, owned by the context's owner.
///
/// Refused with `DuplicateIndex` where a record is already allocated at the
/// tier's address, else with `InvalidTickSpacing` where `tick_spacing` is
/// zero. The fee rates are taken as given.
pub fn create_amm_config(
    ctx: &mut CreateAmmConfig,
    index: u16,
    tick_spacing: u16,
    trade_fee_rate: u32,
    protocol_fee_rate: u32,
    fund_fee_rate: u32,
) -> (res: Result<(), ErrorCode>)
    ensures
        res == if old(ctx).amm_config is Some {
            Err::<(), ErrorCode>(ErrorCode::DuplicateIndex)
        } else if tick_spacing == 0 {
            Err::<(), ErrorCode>(ErrorCode::InvalidTickSpacing)
        } else {
            Ok::<(), ErrorCode>(())
        },
        *final(ctx) == if res is Ok {
            CreateAmmConfig {
                amm_config: Some(
                    AmmConfig::spec_new(
                        old(ctx).bump,
                        index,
                        old(ctx).owner,
                        tick_spacing,
                        trade_fee_rate,
                        protocol_fee_rate,
                        fund_fee_rate,
                    ),
                ),
                ..*old(ctx)
            }
        } else {
            *old(ctx)
        },
{
    if ctx.amm_config.is_some() {
        return Err(ErrorCode::DuplicateIndex);
    }
    match AmmConfig::new(
        ctx.bump,
        index,
        ctx.owner,
        tick_spacing,
        trade_fee_rate,
        protocol_fee_rate,
        fund_fee_rate,
    ) {
        Ok(config) => {
            ctx.amm_config = Some(config);
            Ok(())
        },
        Err(e) => Err(e),
    }
}

/// Changes one field of a fee tier on behalf of the context's owner:
/// selector 0, 1 or 2 sets the trade, protocol or fund fee rate to `value`;
/// selector 3 or 4 sets the owner or the fund owner to the context's new
/// key.
pub fn update_amm_config(ctx: &mut UpdateAmmConfig, param: u8, value: u32) -> (res: Result<
    (),
    ErrorCode,
>)
    ensures
        match old(ctx).amm_config.spec_update(old(ctx).owner, param, value, old(ctx).new_owner) {
            Ok(next) => res is Ok && *final(ctx) == (UpdateAmmConfig {
                amm_config: next,
                ..*old(ctx)
            }),
            Err(e) => res == Err::<(), ErrorCode>(e) && *final(ctx) == *old(ctx),
        },
        res is Ok && param <= 2 ==> final(ctx).amm_config.fee_split_holds(),
        final(ctx).amm_config.tick_spacing == old(ctx).amm_config.tick_spacing,
{
    let owner = ctx.owner;
    let new_owner = ctx.new_owner;
    ctx.amm_config.update(&owner, param, value, new_owner)
}

/// Creates the pool of the context's fee tier and mints at the price
/// `sqrt_price_x64`, whose tick the caller computed as `tick`, and links an
/// empty price history to it.
///
/// Refused with `InvalidTokenOrder` exactly where mint 0 is not strictly
/// below mint 1 in byte order.
pub fn create_pool(ctx: &mut CreatePool, sqrt_price_x64: u128, tick: i32, open_time: u64) -> (res:
    Result<(), ErrorCode>)
    ensures
        res == if bytes_lt(old(ctx).token_mint_0@, old(ctx).token_mint_1@) {
            Ok::<(), ErrorCode>(())
        } else {
            Err::<(), ErrorCode>(ErrorCode::InvalidTokenOrder)
        },
        *final(ctx) == if res is Ok {
            CreatePool {
                pool_state: PoolState::spec_new(
                    old(ctx).pool_params(sqrt_price_x64, tick, open_time),
                ),
                observation_state: ObservationState::spec_new(old(ctx).pool_state_key),
                ..*old(ctx)
            }
        } else {
            *old(ctx)
        },
        res is Ok ==> final(ctx).pool_state.wf() && final(ctx).observation_state.wf(),
{
    let params = PoolParams {
        bump: ctx.pool_bump,
        amm_config: ctx.amm_config_key,
        owner: ctx.pool_creator,
        token_mint_0: ctx.token_mint_0,
        token_mint_1: ctx.token_mint_1,
        token_vault_0: ctx.token_vault_0,
        token_vault_1: ctx.token_vault_1,
        observation_key: ctx.observation_key,
        mint_decimals_0: ctx.mint_decimals_0,
        mint_decimals_1: ctx.mint_decimals_1,
        tick_spacing: ctx.amm_config.tick_spacing,
        sqrt_price_x64,
        tick_current: tick,
        open_time,
    };
    match PoolState::new(params) {
        Ok(pool) => {
            ctx.pool_state = pool;
            ctx.observation_state = ObservationState::new(ctx.pool_state_key);
            Ok(())
        },
        Err(e) => Err(e),
    }
}

/// Replaces the status byte of the pool on behalf of the context's
/// authority, who must be the pool's owner. The five low bits of `status`
/// are taken over; the reserved bits are left zero.
pub fn update_pool_status(ctx: &mut UpdatePoolStatus, status: u8) -> (res: Result<(), ErrorCode>)
    ensures
        res == if old(ctx).authority@ == old(ctx).pool_state.owner@ {
            Ok::<(), ErrorCode>(())
        } else {
            Err::<(), ErrorCode>(ErrorCode::Unauthorized)
        },
        *final(ctx) == if res is Ok {
            UpdatePoolStatus {
                pool_state: PoolState { status: status & STATUS_MASK, ..old(ctx).pool_state },
                ..*old(ctx)
            }
        } else {
            *old(ctx)
        },
        res is Ok ==> final(ctx).pool_state.status_flags_spec() == PoolStatus::spec_from_bits(
            status,
        ),
{
    let authority = ctx.authority;
    ctx.pool_state.update_status(&authority, status)
}

/// Makes the context's record an empty whitelist.
pub fn create_operation_account(ctx: &mut CreateOperationAccount) -> (res: Result<(), ErrorCode>)
    ensures
        res is Ok,
        *final(ctx) == (CreateOperationAccount {
            operation_state: OperationState::spec_new(old(ctx).bump),
            ..*old(ctx)
        }),
{
    ctx.operation_state = OperationState::new(ctx.bump);
    Ok(())
}

/// What `update_operation_account` makes of a whitelist: selector 0 adds
/// `keys` to the owners, 1 removes them from the owners, 2 adds them to the
/// mints, 3 removes them from the mints; any other selector is refused with
/// `InvalidSelector`. Keys are added one by one, each into the first empty
/// slot; where one of them finds none, the call is refused with
/// `WhitelistFull`.
pub open spec fn spec_update_operation_account(
    state: OperationState,
    param: u8,
    keys: Seq<Pubkey>,
) -> Result<(Seq<Pubkey>, Seq<Pubkey>), ErrorCode> {
    if param == 0 {
        match spec_add_keys(state.operation_owners@, keys) {
            Ok(owners) => Ok((owners, state.whitelist_mints@)),
            Err(e) => Err(e),
        }
    } else if param == 1 {
        Ok((spec_remove_keys(state.operation_owners@, keys), state.whitelist_mints@))
    } else if param == 2 {
        match spec_add_keys(state.whitelist_mints@, keys) {
            Ok(mints) => Ok((state.operation_owners@, mints)),
            Err(e) => Err(e),
        }
    } else if param == 3 {
        Ok((state.operation_owners@, spec_remove_keys(state.whitelist_mints@, keys)))
    } else {
        Err(ErrorCode::InvalidSelector)
    }
}

/// Adds keys to a list of the whitelist or removes them from it, as
/// `spec_update_operation_account` says.
pub fn update_operation_account(ctx: &mut UpdateOperationAccount, param: u8, keys: Vec<Pubkey>) -> (res:
    Result<(), ErrorCode>)
    ensures
        match spec_update_operation_account(old(ctx).operation_state, param, keys@) {
            Ok((owners, mints)) => res is Ok && final(ctx).operation_state.operation_owners@
                == owners && final(ctx).operation_state.whitelist_mints@ == mints,
            Err(e) => res == Err::<(), ErrorCode>(e) && *final(ctx) == *old(ctx),
        },
        final(ctx).owner == old(ctx).owner,
        final(ctx).operation_state.bump == old(ctx).operation_state.bump,
{
    if param == 0 {
        ctx.operation_state.add_owners(&keys)
    } else if param == 1 {
        ctx.operation_state.remove_owners(&keys);
        Ok(())
    } else if param == 2 {
        ctx.operation_state.add_mints(&keys)
    } else if param == 3 {
        ctx.operation_state.remove_mints(&keys);
        Ok(())
    } else {
        Err(ErrorCode::InvalidSelector)
    }
}

/// Hands the pool over to `new_owner` on behalf of the context's authority,
/// who must be the pool's owner.
pub fn transfer_reward_owner(ctx: &mut TransferRewardOwner, new_owner: Pubkey) -> (res: Result<
    (),
    ErrorCode,
>)
    ensures
        res == if old(ctx).authority@ == old(ctx).pool_state.owner@ {
            Ok::<(), ErrorCode>(())
        } else {
            Err::<(), ErrorCode>(ErrorCode::Unauthorized)
        },
        *final(ctx) == if res is Ok {
            TransferRewardOwner {
                pool_state: PoolState { owner: new_owner, ..old(ctx).pool_state },
                ..*old(ctx)
            }
        } else {
            *old(ctx)
        },
{
    let authority = ctx.authority;
    ctx.pool_state.transfer_reward_owner(&authority, new_owner)
}

/// Starts a reward cycle in slot `reward_index` of the pool on behalf of the
/// context's funder, with the context's mint and vault.
pub fn initialize_reward(ctx: &mut InitializeReward, reward_index: u8, param: InitializeRewardParam) -> (res:
    Result<(), ErrorCode>)
    ensures
        match old(ctx).pool_state.spec_initialize_reward(
            old(ctx).reward_funder,
            old(ctx).amm_config,
            old(ctx).operation_state,
            reward_index,
            param,
            old(ctx).reward_token_mint,
            old(ctx).reward_token_vault,
        ) {
            Ok(next) => res is Ok && *final(ctx) == (InitializeReward {
                pool_state: next,
                ..*old(ctx)
            }),
            Err(e) => res == Err::<(), ErrorCode>(e) && *final(ctx) == *old(ctx),
        },
        old(ctx).pool_state.wf() ==> final(ctx).pool_state.wf(),
{
    let funder = ctx.reward_funder;
    let config = ctx.amm_config;
    let whitelist = ctx.operation_state;
    let mint = ctx.reward_token_mint;
    let vault = ctx.reward_token_vault;
    ctx.pool_state.initialize_reward(&funder, &config, &whitelist, reward_index, param, mint, vault)
}

/// Hands what reward slot `reward_index` has emitted and not handed out to
/// the context's funder, and returns the amount to transfer.
pub fn collect_remaining_rewards(ctx: &mut CollectRemainingRewards, reward_index: u8) -> (res:
    Result<u64, ErrorCode>)
    ensures
        match old(ctx).pool_state.spec_collect_remaining_rewards(
            old(ctx).reward_funder,
            reward_index,
        ) {
            Ok((next, amount)) => res == Ok::<u64, ErrorCode>(amount) && *final(ctx) == (
            CollectRemainingRewards { pool_state: next, ..*old(ctx) }),
            Err(e) => res == Err::<u64, ErrorCode>(e) && *final(ctx) == *old(ctx),
        },
        old(ctx).pool_state.wf() ==> final(ctx).pool_state.wf(),
{
    let funder = ctx.reward_funder;
    ctx.pool_state.collect_remaining_rewards(&funder, reward_index)
}

/// Brings every reward schedule of the pool up to the context's time.
/// Anyone may call this.
pub fn update_reward_infos(ctx: &mut UpdateRewardInfos) -> (res: Result<(), ErrorCode>)
    ensures
        match old(ctx).pool_state.spec_update_reward_infos(old(ctx).current_time) {
            Some(next) => res is Ok && *final(ctx) == (UpdateRewardInfos {
                pool_state: next,
                ..*old(ctx)
            }),
            None => res == Err::<(), ErrorCode>(ErrorCode::MathOverflow) && *final(ctx)
                == *old(ctx),
        },
        old(ctx).pool_state.wf() ==> final(ctx).pool_state.wf(),
{
    let now = ctx.current_time;
    ctx.pool_state.update_reward_infos(now)
}

/// Changes the rate and the window of reward slot `reward_index` on behalf
/// of the context's authority, at the context's time.
pub fn set_reward_params(
    ctx: &mut SetRewardParams,
    reward_index: u8,
    emissions_per_second_x64: u128,
    open_time: u64,
    end_time: u64,
) -> (res: Result<(), ErrorCode>)
    ensures
        match old(ctx).pool_state.spec_set_reward_params(
            old(ctx).authority,
            old(ctx).amm_config,
            old(ctx).operation_state,
            old(ctx).current_time,
            reward_index,
            emissions_per_second_x64,
            open_time,
            end_time,
        ) {
            Ok(next) => res is Ok && *final(ctx) == (SetRewardParams {
                pool_state: next,
                ..*old(ctx)
            }),
            Err(e) => res == Err::<(), ErrorCode>(e) && *final(ctx) == *old(ctx),
        },
        old(ctx).pool_state.wf() ==> final(ctx).pool_state.wf(),
{
    let authority = ctx.authority;
    let config = ctx.amm_config;
    let whitelist = ctx.operation_state;
    let now = ctx.current_time;
    ctx.pool_state.set_reward_params(
        &authority,
        &config,
        &whitelist,
        now,
        reward_index,
        emissions_per_second_x64,
        open_time,
        end_time,
    )
}

/// Collects fees owed to the protocol on behalf of the context's owner, who
/// must own the fee tier, and returns the amounts of token 0 and token 1 to
/// transfer.
pub fn collect_protocol_fee(
    ctx: &mut CollectProtocolFee,
    amount_0_requested: u64,
    amount_1_requested: u64,
) -> (res: Result<(u64, u64), ErrorCode>)
    ensures
        match old(ctx).pool_state.spec_collect_protocol_fee(
            old(ctx).owner,
            old(ctx).amm_config,
            amount_0_requested,
            amount_1_requested,
        ) {
            Ok((next, amount_0, amount_1)) => res == Ok::<(u64, u64), ErrorCode>(
                (amount_0, amount_1),
            ) && *final(ctx) == (CollectProtocolFee { pool_state: next, ..*old(ctx) }),
            Err(e) => res == Err::<(u64, u64), ErrorCode>(e) && *final(ctx) == *old(ctx),
        },
{
    let owner = ctx.owner;
    let config = ctx.amm_config;
    ctx.pool_state.collect_protocol_fee(&owner, &config, amount_0_requested, amount_1_requested)
}

/// Collects fees owed to the fund on behalf of the context's owner, who must
/// be the fund owner of the fee tier, and returns the amounts of token 0 and
/// token 1 to transfer.
pub fn collect_fund_fee(ctx: &mut CollectFundFee, amount_0_requested: u64, amount_1_requested: u64) -> (res:
    Result<(u64, u64), ErrorCode>)
    ensures
        match old(ctx).pool_state.spec_collect_fund_fee(
            old(ctx).owner,
            old(ctx).amm_config,
            amount_0_requested,
            amount_1_requested,
        ) {
            Ok((next, amount_0, amount_1)) => res == Ok::<(u64, u64), ErrorCode>(
                (amount_0, amount_1),
            ) && *final(ctx) == (CollectFundFee { pool_state: next, ..*old(ctx) }),
            Err(e) => res == Err::<(u64, u64), ErrorCode>(e) && *final(ctx) == *old(ctx),
        },
{
    let owner = ctx.owner;
    let config = ctx.amm_config;
    ctx.pool_state.collect_fund_fee(&owner, &config, amount_0_requested, amount_1_requested)
}

} // verus!
