use clmm_pool::{ErrorCode, ErrorKind};

#[test]
fn every_error_has_its_class() {
    let table = [
        (ErrorCode::DuplicateIndex, ErrorKind::InvalidParameter),
        (ErrorCode::InvalidTickSpacing, ErrorKind::InvalidParameter),
        (ErrorCode::InvalidSelector, ErrorKind::InvalidParameter),
        (ErrorCode::InvalidFeeRate, ErrorKind::InvalidParameter),
        (ErrorCode::MissingKey, ErrorKind::InvalidParameter),
        (ErrorCode::InvalidTokenOrder, ErrorKind::InvalidParameter),
        (ErrorCode::InvalidRewardIndex, ErrorKind::InvalidParameter),
        (ErrorCode::InvalidWindow, ErrorKind::InvalidParameter),
        (ErrorCode::InvalidBitmapIndex, ErrorKind::InvalidParameter),
        (ErrorCode::InsufficientLiquidity, ErrorKind::InvalidParameter),
        (ErrorCode::InsufficientRewards, ErrorKind::InvalidParameter),
        (ErrorCode::Unauthorized, ErrorKind::Unauthorized),
        (ErrorCode::StatusDisabled, ErrorKind::OperationDisabled),
        (ErrorCode::RewardAlreadyActive, ErrorKind::RewardStateConflict),
        (ErrorCode::RewardNotInitialized, ErrorKind::RewardStateConflict),
        (ErrorCode::RewardNotEnded, ErrorKind::RewardStateConflict),
        (ErrorCode::EmissionRateDecreased, ErrorKind::RewardStateConflict),
        (ErrorCode::WhitelistFull, ErrorKind::WhitelistFull),
        (ErrorCode::StaleOracleQuery, ErrorKind::StaleOracleQuery),
        (ErrorCode::MathOverflow, ErrorKind::ArithmeticOverflow),
    ];
    for (code, kind) in table.iter() {
        assert_eq!(code.kind(), *kind);
    }
}
