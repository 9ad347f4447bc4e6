//! Accounting core of a concentrated-liquidity pool: the persistent records
//! (fee-tier configuration, pool ledger with its embedded reward schedules,
//! price-observation ring, operation whitelist) and the state transitions that
//! keep them consistent, each with a machine-checked contract.

pub mod config;
pub mod context;
pub mod error;
pub mod instructions;
pub mod math;
pub mod operation;
pub mod oracle;
pub mod pda;
pub mod pool;
pub mod pool_engine;
pub mod pool_reward;
pub mod pubkey;
pub mod reward;
pub mod status;

pub use crate::config::AmmConfig;
pub use crate::context::{
    CollectFundFee, CollectProtocolFee, CollectRemainingRewards, CreateAmmConfig,
    CreateOperationAccount, CreatePool, InitializeReward, SetRewardParams, TransferRewardOwner,
    UpdateAmmConfig, UpdateOperationAccount, UpdatePoolStatus, UpdateRewardInfos,
};
pub use crate::error::{ErrorCode, ErrorKind};
pub use crate::instructions::{
    collect_fund_fee, collect_protocol_fee, collect_remaining_rewards, create_amm_config,
    create_operation_account, create_pool, initialize_reward, set_reward_params,
    transfer_reward_owner, update_amm_config, update_operation_account, update_pool_status,
    update_reward_infos,
};
pub use crate::operation::OperationState;
pub use crate::oracle::{Observation, ObservationState};
pub use crate::pda::id;
pub use crate::pool::PoolState;
pub use crate::pubkey::Pubkey;
pub use crate::reward::{InitializeRewardParam, RewardInfo, RewardState};
