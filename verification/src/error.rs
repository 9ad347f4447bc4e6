//! What an operation reports when it refuses to act. A refused operation
//! leaves every record as it found it.

use vstd::prelude::*;

verus! {

/// The reason an operation was refused.
#[derive(Clone, Copy, Debug, PartialEq, Eq, Structural)]
pub enum ErrorCode {
    /// A configuration with this index is already allocated.
    DuplicateIndex,
    /// The tick spacing of a new configuration is zero.
    InvalidTickSpacing,
    /// A selector names no field or list.
    InvalidSelector,
    /// Protocol and fund fee together would exceed the trade fee.
    InvalidFeeRate,
    /// An update of an owner came without the new key.
    MissingKey,
    /// The two token mints are not in strictly increasing byte order.
    InvalidTokenOrder,
    /// The reward index is not below the number of reward slots.
    InvalidRewardIndex,
    /// A reward window that does not open before it ends, that would open in
    /// the past, or that would end a running cycle no later than now; also a
    /// time span of no length asked of the price history.
    InvalidWindow,
    /// A bit offset beyond the tick-array bitmap.
    InvalidBitmapIndex,
    /// More liquidity was to be removed than the pool holds.
    InsufficientLiquidity,
    /// A claim would exceed what the schedule has emitted.
    InsufficientRewards,
    /// The actor is not the identity the operation requires.
    Unauthorized,
    /// The status bit of this class of operation is set.
    StatusDisabled,
    /// The reward slot already runs a cycle.
    RewardAlreadyActive,
    /// The reward slot was never initialized.
    RewardNotInitialized,
    /// The reward slot has not ended yet.
    RewardNotEnded,
    /// The emission rate of a running cycle would go down.
    EmissionRateDecreased,
    /// No empty slot is left in the whitelist.
    WhitelistFull,
    /// The sample asked for is older than the oldest one retained.
    StaleOracleQuery,
    /// An accumulator would leave the range of its type.
    MathOverflow,
}

/// The class an error belongs to.
#[derive(Clone, Copy, Debug, PartialEq, Eq, Structural)]
pub enum ErrorKind {
    InvalidParameter,
    Unauthorized,
    OperationDisabled,
    RewardStateConflict,
    WhitelistFull,
    StaleOracleQuery,
    ArithmeticOverflow,
}

impl ErrorCode {
    /// The class of each error.
    pub open spec fn spec_kind(self) -> ErrorKind {
        match self {
            ErrorCode::DuplicateIndex => ErrorKind::InvalidParameter,
            ErrorCode::InvalidTickSpacing => ErrorKind::InvalidParameter,
            ErrorCode::InvalidSelector => ErrorKind::InvalidParameter,
            ErrorCode::InvalidFeeRate => ErrorKind::InvalidParameter,
            ErrorCode::MissingKey => ErrorKind::InvalidParameter,
            ErrorCode::InvalidTokenOrder => ErrorKind::InvalidParameter,
            ErrorCode::InvalidRewardIndex => ErrorKind::InvalidParameter,
            ErrorCode::InvalidWindow => ErrorKind::InvalidParameter,
            ErrorCode::InvalidBitmapIndex => ErrorKind::InvalidParameter,
            ErrorCode::InsufficientLiquidity => ErrorKind::InvalidParameter,
            ErrorCode::InsufficientRewards => ErrorKind::InvalidParameter,
            ErrorCode::Unauthorized => ErrorKind::Unauthorized,
            ErrorCode::StatusDisabled => ErrorKind::OperationDisabled,
            ErrorCode::RewardAlreadyActive => ErrorKind::RewardStateConflict,
            ErrorCode::RewardNotInitialized => ErrorKind::RewardStateConflict,
            ErrorCode::RewardNotEnded => ErrorKind::RewardStateConflict,
            ErrorCode::EmissionRateDecreased => ErrorKind::RewardStateConflict,
            ErrorCode::WhitelistFull => ErrorKind::WhitelistFull,
            ErrorCode::StaleOracleQuery => ErrorKind::StaleOracleQuery,
            ErrorCode::MathOverflow => ErrorKind::ArithmeticOverflow,
        }
    }

    /// The class this error belongs to.
    pub fn kind(&self) -> (k: ErrorKind)
        ensures
            k == self.spec_kind(),
    {
        match self {
            ErrorCode::DuplicateIndex
            | ErrorCode::InvalidTickSpacing
            | ErrorCode::InvalidSelector
            | ErrorCode::InvalidFeeRate
            | ErrorCode::MissingKey
            | ErrorCode::InvalidTokenOrder
            | ErrorCode::InvalidRewardIndex
            | ErrorCode::InvalidWindow
            | ErrorCode::InvalidBitmapIndex
            | ErrorCode::InsufficientLiquidity
            | ErrorCode::InsufficientRewards => ErrorKind::InvalidParameter,
            ErrorCode::Unauthorized => ErrorKind::Unauthorized,
            ErrorCode::StatusDisabled => ErrorKind::OperationDisabled,
            ErrorCode::RewardAlreadyActive
            | ErrorCode::RewardNotInitialized
            | ErrorCode::RewardNotEnded
            | ErrorCode::EmissionRateDecreased => ErrorKind::RewardStateConflict,
            ErrorCode::WhitelistFull => ErrorKind::WhitelistFull,
            ErrorCode::StaleOracleQuery => ErrorKind::StaleOracleQuery,
            ErrorCode::MathOverflow => ErrorKind::ArithmeticOverflow,
        }
    }
}

} // verus!
