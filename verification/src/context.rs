//! What each operation is handed: who acts, and the records it reads and
//! writes, each as a plain value. The host loads the records before the call
//! and stores them after it.

use vstd::prelude::*;
use crate::config::AmmConfig;
use crate::operation::OperationState;
use crate::oracle::ObservationState;
use crate::pool::PoolState;
use crate::pubkey::Pubkey;

verus! {

/// For `create_amm_config`.
#[derive(Clone, Copy, Debug, PartialEq, Eq)]
pub struct CreateAmmConfig {
    /// Who becomes the owner of the fee tier.
    pub owner: Pubkey,
    /// The record at the tier's address: `None` while nothing is allocated
    /// there.
    pub amm_config: Option<AmmConfig>,
    /// Bump of the tier's address.
    pub bump: u8,
}

/// For `update_amm_config`.
#[derive(Clone, Copy, Debug, PartialEq, Eq)]
pub struct UpdateAmmConfig {
    /// Who asks for the update.
    pub owner: Pubkey,
    /// The fee tier to change.
    pub amm_config: AmmConfig,
    /// The key that an update of the owner or the fund owner sets.
    pub new_owner: Option<Pubkey>,
}

/// For `create_pool`.
#[derive(Clone, Copy, Debug, PartialEq, Eq)]
pub struct CreatePool {
    /// Who creates the pool.
    pub pool_creator: Pubkey,
    /// Address of the fee tier.
    pub amm_config_key: Pubkey,
    /// The fee tier.
    pub amm_config: AmmConfig,
    /// Address of the pool.
    pub pool_state_key: Pubkey,
    /// Bump of the pool's address.
    pub pool_bump: u8,
    /// The record that becomes the pool.
    pub pool_state: PoolState,
    /// Mint of token 0.
    pub token_mint_0: Pubkey,
    /// Mint of token 1.
    pub token_mint_1: Pubkey,
    /// Decimals of token 0.
    pub mint_decimals_0: u8,
    /// Decimals of token 1.
    pub mint_decimals_1: u8,
    /// Vault of token 0.
    pub token_vault_0: Pubkey,
    /// Vault of token 1.
    pub token_vault_1: Pubkey,
    /// Address of the pool's price history.
    pub observation_key: Pubkey,
    /// The record that becomes the pool's price history.
    pub observation_state: ObservationState,
}

/// For `update_pool_status`.
#[derive(Clone, Copy, Debug, PartialEq, Eq)]
pub struct UpdatePoolStatus {
    /// Who asks for the change.
    pub authority: Pubkey,
    /// The pool.
    pub pool_state: PoolState,
}

/// For `create_operation_account`.
#[derive(Clone, Copy, Debug, PartialEq, Eq)]
pub struct CreateOperationAccount {
    /// Who creates the whitelist.
    pub owner: Pubkey,
    /// The record that becomes the whitelist.
    pub operation_state: OperationState,
    /// Bump of the whitelist's address.
    pub bump: u8,
}

/// For `update_operation_account`.
#[derive(Clone, Copy, Debug, PartialEq, Eq)]
pub struct UpdateOperationAccount {
    /// Who asks for the change.
    pub owner: Pubkey,
    /// The whitelist.
    pub operation_state: OperationState,
}

/// For `transfer_reward_owner`.
#[derive(Clone, Copy, Debug, PartialEq, Eq)]
pub struct TransferRewardOwner {
    /// Who asks for the change.
    pub authority: Pubkey,
    /// The pool.
    pub pool_state: PoolState,
}

/// For `initialize_reward`.
#[derive(Clone, Copy, Debug, PartialEq, Eq)]
pub struct InitializeReward {
    /// Who funds the reward.
    pub reward_funder: Pubkey,
    /// The fee tier of the pool.
    pub amm_config: AmmConfig,
    /// The pool.
    pub pool_state: PoolState,
    /// The whitelist.
    pub operation_state: OperationState,
    /// Mint of the reward token.
    pub reward_token_mint: Pubkey,
    /// Vault that holds the reward tokens.
    pub reward_token_vault: Pubkey,
}

/// For `collect_remaining_rewards`.
#[derive(Clone, Copy, Debug, PartialEq, Eq)]
pub struct CollectRemainingRewards {
    /// Who funded the reward.
    pub reward_funder: Pubkey,
    /// The pool.
    pub pool_state: PoolState,
}

/// For `update_reward_infos`.
#[derive(Clone, Copy, Debug, PartialEq, Eq)]
pub struct UpdateRewardInfos {
    /// The pool.
    pub pool_state: PoolState,
    /// The time of the call.
    pub current_time: u64,
}

/// For `set_reward_params`.
#[derive(Clone, Copy, Debug, PartialEq, Eq)]
pub struct SetRewardParams {
    /// Who asks for the change.
    pub authority: Pubkey,
    /// The fee tier of the pool.
    pub amm_config: AmmConfig,
    /// The pool.
    pub pool_state: PoolState,
    /// The whitelist.
    pub operation_state: OperationState,
    /// The time of the call.
    pub current_time: u64,
}

/// For `collect_protocol_fee`.
#[derive(Clone, Copy, Debug, PartialEq, Eq)]
pub struct CollectProtocolFee {
    /// Who collects.
    pub owner: Pubkey,
    /// The pool.
    pub pool_state: PoolState,
    /// The fee tier of the pool.
    pub amm_config: AmmConfig,
}

/// For `collect_fund_fee`.
#[derive(Clone, Copy, Debug, PartialEq, Eq)]
pub struct CollectFundFee {
    /// Who collects.
    pub owner: Pubkey,
    /// The pool.
    pub pool_state: PoolState,
    /// The fee tier of the pool.
    pub amm_config: AmmConfig,
}

impl CreatePool {
    /// What the pool of this context is made from, with the given price,
    /// tick and opening time.
    pub open spec fn pool_params(&self, sqrt_price_x64: u128, tick: i32, open_time: u64) -> crate::pool::PoolParams {
        crate::pool::PoolParams {
            bump: self.pool_bump,
            amm_config: self.amm_config_key,
            owner: self.pool_creator,
            token_mint_0: self.token_mint_0,
            token_mint_1: self.token_mint_1,
            token_vault_0: self.token_vault_0,
            token_vault_1: self.token_vault_1,
            observation_key: self.observation_key,
            mint_decimals_0: self.mint_decimals_0,
            mint_decimals_1: self.mint_decimals_1,
            tick_spacing: self.amm_config.tick_spacing,
            sqrt_price_x64,
            tick_current: tick,
            open_time,
        }
    }
}

} // verus!
