use clmm_pool::pool::PoolParams;
use clmm_pool::{
    collect_remaining_rewards, initialize_reward, set_reward_params, update_reward_infos,
    AmmConfig, CollectRemainingRewards, ErrorCode, ErrorKind, InitializeReward,
    InitializeRewardParam, OperationState, PoolState, Pubkey, RewardInfo, RewardState,
    SetRewardParams, UpdateRewardInfos,
};

fn key(n: u8) -> Pubkey {
    Pubkey::new_from_array([n; 32])
}

fn pool() -> PoolState {
    PoolState::new(PoolParams {
        bump: 253,
        amm_config: key(10),
        owner: key(11),
        token_mint_0: key(20),
        token_mint_1: key(21),
        token_vault_0: key(30),
        token_vault_1: key(31),
        observation_key: key(40),
        mint_decimals_0: 6,
        mint_decimals_1: 9,
        tick_spacing: 60,
        sqrt_price_x64: 1u128 << 64,
        tick_current: 0,
        open_time: 0,
    })
    .unwrap()
}

fn tier() -> AmmConfig {
    AmmConfig::new(1, 0, key(50), 60, 2500, 1000, 500).unwrap()
}

fn whitelist() -> OperationState {
    let mut w = OperationState::new(0);
    w.add_owner(key(60)).unwrap();
    w
}

fn window(open: u64, end: u64, rate: u128) -> InitializeRewardParam {
    InitializeRewardParam { open_time: open, end_time: end, emissions_per_second_x64: rate }
}

fn init_ctx(funder: Pubkey, p: PoolState) -> InitializeReward {
    InitializeReward {
        reward_funder: funder,
        amm_config: tier(),
        pool_state: p,
        operation_state: whitelist(),
        reward_token_mint: key(70),
        reward_token_vault: key(71),
    }
}

#[test]
fn reward_accrues_fifty_per_liquidity_after_500_seconds() {
    let mut ctx = init_ctx(key(60), pool());
    assert_eq!(initialize_reward(&mut ctx, 0, window(1000, 2000, 10u128 << 64)), Ok(()));
    let mut p = ctx.pool_state;
    p.liquidity = 100;
    let before = p.reward_infos[0].reward_growth_global_x64;
    let mut up = UpdateRewardInfos { pool_state: p, current_time: 1500 };
    assert_eq!(update_reward_infos(&mut up), Ok(()));
    let r = up.pool_state.reward_infos[0];
    assert_eq!(r.reward_growth_global_x64 - before, 50u128 << 64);
    assert_eq!(r.reward_total_emissioned, 5000);
    assert_eq!(r.last_update_time, 1500);
    assert_eq!(r.reward_state, RewardState::Initialized);
    assert_eq!(up.pool_state.reward_infos[1], RewardInfo::new());
    assert_eq!(up.pool_state.reward_infos[2], RewardInfo::new());
}

#[test]
fn initialize_reward_sets_the_slot() {
    let mut ctx = init_ctx(key(60), pool());
    assert_eq!(initialize_reward(&mut ctx, 2, window(1000, 2000, 7)), Ok(()));
    let r = ctx.pool_state.reward_infos[2];
    assert_eq!(r.reward_state, RewardState::Initialized);
    assert_eq!((r.open_time, r.end_time, r.last_update_time), (1000, 2000, 1000));
    assert_eq!(r.emissions_per_second_x64, 7);
    assert_eq!(r.token_mint, key(70));
    assert_eq!(r.token_vault, key(71));
    assert_eq!(r.authority, key(60));
    assert_eq!(ctx.pool_state.reward_infos[0], RewardInfo::new());
    assert_eq!(ctx.pool_state.reward_infos[1], RewardInfo::new());
    // the owner of the fee tier may fund too
    let mut ctx = init_ctx(key(50), pool());
    assert_eq!(initialize_reward(&mut ctx, 1, window(1, 2, 7)), Ok(()));
    assert_eq!(ctx.pool_state.reward_infos[1].authority, key(50));
}

#[test]
fn initialize_reward_refusals_in_order() {
    let mut ctx = init_ctx(key(99), pool());
    let before = ctx;
    assert_eq!(initialize_reward(&mut ctx, 3, window(5, 4, 7)), Err(ErrorCode::InvalidRewardIndex));
    assert_eq!(initialize_reward(&mut ctx, 0, window(5, 4, 7)), Err(ErrorCode::Unauthorized));
    ctx.reward_funder = key(60);
    assert_eq!(initialize_reward(&mut ctx, 0, window(5, 4, 7)), Err(ErrorCode::InvalidWindow));
    assert_eq!(initialize_reward(&mut ctx, 0, window(5, 5, 7)), Err(ErrorCode::InvalidWindow));
    ctx.reward_funder = key(99);
    assert_eq!(ctx, before);
    ctx.reward_funder = key(60);
    assert_eq!(initialize_reward(&mut ctx, 0, window(5, 6, 7)), Ok(()));
    // on a running slot the funder is looked at first, then the slot
    ctx.reward_funder = key(99);
    assert_eq!(initialize_reward(&mut ctx, 0, window(5, 4, 7)), Err(ErrorCode::Unauthorized));
    ctx.reward_funder = key(60);
    assert_eq!(initialize_reward(&mut ctx, 0, window(5, 4, 7)), Err(ErrorCode::RewardAlreadyActive));
    assert_eq!(ErrorCode::RewardAlreadyActive.kind(), ErrorKind::RewardStateConflict);
    assert_eq!(ErrorCode::InvalidWindow.kind(), ErrorKind::InvalidParameter);
    assert_eq!(ErrorCode::InvalidRewardIndex.kind(), ErrorKind::InvalidParameter);
}

#[test]
fn initialize_reward_again_after_end_keeps_totals() {
    let mut ctx = init_ctx(key(60), pool());
    initialize_reward(&mut ctx, 0, window(1000, 2000, 1u128 << 64)).unwrap();
    ctx.pool_state.liquidity = 10;
    ctx.pool_state.update_reward_infos(3000).unwrap();
    let ended = ctx.pool_state.reward_infos[0];
    assert_eq!(ended.reward_state, RewardState::Ended);
    assert_eq!(ended.reward_total_emissioned, 1000);
    ctx.reward_token_mint = key(80);
    assert_eq!(initialize_reward(&mut ctx, 0, window(4000, 5000, 2u128 << 64)), Ok(()));
    let again = ctx.pool_state.reward_infos[0];
    assert_eq!(again.reward_state, RewardState::Initialized);
    assert_eq!(again.reward_total_emissioned, 1000);
    assert_eq!(again.reward_growth_global_x64, ended.reward_growth_global_x64);
    assert_eq!(again.token_mint, key(80));
    assert_eq!(again.last_update_time, 4000);
}

#[test]
fn update_reward_infos_updates_all_slots_or_none() {
    let mut p = pool();
    p.liquidity = 4;
    let w = whitelist();
    let c = tier();
    p.initialize_reward(&key(60), &c, &w, 0, window(0, 100, 8u128 << 64), key(1), key(2)).unwrap();
    p.initialize_reward(&key(60), &c, &w, 1, window(50, 100, 4u128 << 64), key(1), key(2)).unwrap();
    p.initialize_reward(&key(60), &c, &w, 2, window(0, 20, 1u128 << 64), key(1), key(2)).unwrap();
    assert_eq!(p.update_reward_infos(40), Ok(()));
    assert_eq!(p.reward_infos[0].reward_total_emissioned, 320);
    assert_eq!(p.reward_infos[0].reward_growth_global_x64, 80u128 << 64);
    assert_eq!(p.reward_infos[1].reward_total_emissioned, 0);
    assert_eq!(p.reward_infos[1].last_update_time, 50);
    assert_eq!(p.reward_infos[2].reward_total_emissioned, 20);
    assert_eq!(p.reward_infos[2].reward_state, RewardState::Ended);
    // idempotent at a fixed time
    let once = p;
    assert_eq!(p.update_reward_infos(40), Ok(()));
    assert_eq!(p, once);
    // one slot about to overflow refuses the whole call
    p.reward_infos[1].reward_total_emissioned = u64::MAX;
    let before = p;
    assert_eq!(p.update_reward_infos(60), Err(ErrorCode::MathOverflow));
    assert_eq!(p, before);
}

#[test]
fn reward_totals_never_go_down() {
    let mut p = pool();
    p.liquidity = 7;
    p.initialize_reward(&key(60), &tier(), &whitelist(), 0, window(10, 500, 3u128 << 62), key(1), key(2))
        .unwrap();
    let mut last = p.reward_infos[0];
    for now in [0u64, 10, 11, 11, 50, 49, 200, 499, 500, 501, 10_000] {
        p.update_reward_infos(now).unwrap();
        let r = p.reward_infos[0];
        assert!(r.reward_growth_global_x64 >= last.reward_growth_global_x64);
        assert!(r.reward_total_emissioned >= last.reward_total_emissioned);
        assert!(r.last_update_time >= last.last_update_time);
        assert!(r.last_update_time <= r.end_time);
        assert!(r.reward_claimed <= r.reward_total_emissioned);
        last = r;
    }
    assert_eq!(last.reward_state, RewardState::Ended);
    // 490 seconds at three quarters of a token per second, rounded up at each call
    assert!(last.reward_total_emissioned >= 367);
}

#[test]
fn set_reward_params_settles_the_slot_then_changes_it() {
    let mut p = pool();
    p.liquidity = 100;
    p.initialize_reward(&key(60), &tier(), &whitelist(), 0, window(1000, 2000, 10u128 << 64), key(1), key(2))
        .unwrap();
    let mut ctx = SetRewardParams {
        authority: key(60),
        amm_config: tier(),
        pool_state: p,
        operation_state: whitelist(),
        current_time: 1500,
    };
    assert_eq!(set_reward_params(&mut ctx, 0, 20u128 << 64, 0, 3000), Ok(()));
    let r = ctx.pool_state.reward_infos[0];
    // settled at the old rate up to 1500
    assert_eq!(r.reward_total_emissioned, 5000);
    assert_eq!(r.reward_growth_global_x64, 50u128 << 64);
    assert_eq!(r.last_update_time, 1500);
    assert_eq!(r.emissions_per_second_x64, 20u128 << 64);
    assert_eq!(r.end_time, 3000);
    assert_eq!(r.open_time, 1000);
    ctx.current_time = 1600;
    let before = ctx;
    assert_eq!(set_reward_params(&mut ctx, 0, 19u128 << 64, 0, 3000), Err(ErrorCode::EmissionRateDecreased));
    assert_eq!(set_reward_params(&mut ctx, 0, 20u128 << 64, 0, 1600), Err(ErrorCode::InvalidWindow));
    // a refused call does not even settle
    assert_eq!(ctx, before);
    // an end earlier than the old one, but after now, is granted
    assert_eq!(set_reward_params(&mut ctx, 0, 20u128 << 64, 0, 1700), Ok(()));
    let r = ctx.pool_state.reward_infos[0];
    assert_eq!(r.end_time, 1700);
    assert_eq!(r.last_update_time, 1600);
    assert_eq!(r.reward_total_emissioned, 5000 + 2000);
}

#[test]
fn set_reward_params_leaves_the_other_slots_alone() {
    let mut p = pool();
    p.liquidity = 100;
    let w = whitelist();
    let c = tier();
    p.initialize_reward(&key(60), &c, &w, 0, window(0, 1000, 1u128 << 64), key(1), key(2)).unwrap();
    p.initialize_reward(&key(60), &c, &w, 1, window(0, 1000, 1u128 << 64), key(1), key(2)).unwrap();
    let before = p;
    assert_eq!(p.set_reward_params(&key(60), &c, &w, 500, 0, 1u128 << 64, 0, 2000), Ok(()));
    assert_eq!(p.reward_infos[1], before.reward_infos[1]);
    assert_eq!(p.reward_infos[1].last_update_time, 0);
    assert_eq!(p.reward_infos[2], before.reward_infos[2]);
    assert_eq!(p.reward_infos[0].last_update_time, 500);
    assert_eq!(p.reward_infos[0].reward_total_emissioned, 500);
    assert_eq!(p.reward_infos[0].end_time, 2000);
    // the other slot catches up on its own when the pool is updated
    assert_eq!(p.update_reward_infos(500), Ok(()));
    assert_eq!(p.reward_infos[1].reward_total_emissioned, 500);
}

#[test]
fn first_idle_reward_slot_is_the_lowest_that_runs_no_cycle() {
    let mut p = pool();
    let w = whitelist();
    let c = tier();
    assert_eq!(p.first_idle_reward_slot(), Some(0));
    p.initialize_reward(&key(60), &c, &w, 0, window(0, 10, 1), key(1), key(2)).unwrap();
    assert_eq!(p.first_idle_reward_slot(), Some(1));
    p.initialize_reward(&key(60), &c, &w, 2, window(0, 10, 1), key(1), key(2)).unwrap();
    assert_eq!(p.first_idle_reward_slot(), Some(1));
    p.initialize_reward(&key(60), &c, &w, 1, window(0, 10, 1), key(1), key(2)).unwrap();
    assert_eq!(p.first_idle_reward_slot(), None);
    // an ended slot is idle again
    p.update_reward_infos(10).unwrap();
    assert_eq!(p.first_idle_reward_slot(), Some(0));
}

#[test]
fn set_reward_params_restarts_after_end() {
    let mut p = pool();
    p.liquidity = 100;
    p.initialize_reward(&key(60), &tier(), &whitelist(), 1, window(1000, 2000, 10u128 << 64), key(1), key(2))
        .unwrap();
    let mut ctx = SetRewardParams {
        authority: key(60),
        amm_config: tier(),
        pool_state: p,
        operation_state: whitelist(),
        current_time: 2500,
    };
    // settling at 2500 ends the cycle; a lower rate is then fine
    assert_eq!(set_reward_params(&mut ctx, 1, 1u128 << 64, 2500, 2600), Ok(()));
    let r = ctx.pool_state.reward_infos[1];
    assert_eq!(r.reward_state, RewardState::Initialized);
    assert_eq!(r.reward_total_emissioned, 10_000);
    assert_eq!((r.open_time, r.end_time, r.last_update_time), (2500, 2600, 2500));
    assert_eq!(r.emissions_per_second_x64, 1u128 << 64);
    // a window that opens in the past is refused
    let mut copy = p;
    assert_eq!(
        copy.set_reward_params(&key(60), &tier(), &whitelist(), 2500, 1, 1, 2499, 2600),
        Err(ErrorCode::InvalidWindow)
    );
    assert_eq!(copy, p);
}

#[test]
fn set_reward_params_authority() {
    let mut p = pool();
    p.initialize_reward(&key(50), &tier(), &whitelist(), 0, window(1000, 2000, 10), key(1), key(2))
        .unwrap();
    let w = whitelist();
    let c = tier();
    // a stranger
    assert_eq!(p.set_reward_params(&key(99), &c, &w, 1100, 0, 10, 0, 2000), Err(ErrorCode::Unauthorized));
    // the slot's authority, the tier's owner, a whitelisted funder
    assert_eq!(p.set_reward_params(&key(50), &c, &w, 1100, 0, 10, 0, 2000), Ok(()));
    assert_eq!(p.set_reward_params(&key(60), &c, &w, 1100, 0, 10, 0, 2000), Ok(()));
    let mut other = c;
    other.owner = key(51);
    assert_eq!(p.set_reward_params(&key(50), &other, &OperationState::new(0), 1100, 0, 10, 0, 2000), Ok(()));
    assert_eq!(p.set_reward_params(&key(51), &other, &OperationState::new(0), 1100, 0, 10, 0, 2000), Ok(()));
    assert_eq!(p.set_reward_params(&key(60), &other, &OperationState::new(0), 1100, 0, 10, 0, 2000),
        Err(ErrorCode::Unauthorized));
    assert_eq!(p.set_reward_params(&key(50), &c, &w, 1100, 3, 10, 0, 2000), Err(ErrorCode::InvalidRewardIndex));
    assert_eq!(p.set_reward_params(&key(50), &c, &w, 1100, 1, 10, 5000, 6000),
        Err(ErrorCode::RewardNotInitialized));
}

#[test]
fn collect_remaining_rewards_after_end() {
    let mut p = pool();
    p.liquidity = 100;
    p.initialize_reward(&key(60), &tier(), &whitelist(), 0, window(1000, 2000, 10u128 << 64), key(1), key(2))
        .unwrap();
    p.update_reward_infos(1500).unwrap();
    assert_eq!(p.record_reward_claim(0, 1200), Ok(()));
    let mut ctx = CollectRemainingRewards { reward_funder: key(60), pool_state: p };
    let before = ctx;
    assert_eq!(collect_remaining_rewards(&mut ctx, 0), Err(ErrorCode::RewardNotEnded));
    assert_eq!(collect_remaining_rewards(&mut ctx, 3), Err(ErrorCode::InvalidRewardIndex));
    ctx.reward_funder = key(50);
    assert_eq!(collect_remaining_rewards(&mut ctx, 0), Err(ErrorCode::Unauthorized));
    ctx.reward_funder = key(60);
    assert_eq!(ctx, before);
    ctx.pool_state.update_reward_infos(2000).unwrap();
    assert_eq!(collect_remaining_rewards(&mut ctx, 0), Ok(10_000 - 1200));
    let r = ctx.pool_state.reward_infos[0];
    assert_eq!(r.reward_claimed, 10_000);
    assert_eq!(r.reward_total_emissioned, 10_000);
    // nothing is left the second time
    assert_eq!(collect_remaining_rewards(&mut ctx, 0), Ok(0));
    assert_eq!(ErrorCode::RewardNotEnded.kind(), ErrorKind::RewardStateConflict);
}

#[test]
fn record_reward_claim_stays_within_emission() {
    let mut p = pool();
    p.liquidity = 1;
    p.initialize_reward(&key(60), &tier(), &whitelist(), 0, window(0, 100, 1u128 << 64), key(1), key(2))
        .unwrap();
    p.update_reward_infos(10).unwrap();
    assert_eq!(p.reward_infos[0].reward_total_emissioned, 10);
    assert_eq!(p.record_reward_claim(0, 4), Ok(()));
    assert_eq!(p.record_reward_claim(0, 6), Ok(()));
    let before = p;
    assert_eq!(p.record_reward_claim(0, 1), Err(ErrorCode::InsufficientRewards));
    assert_eq!(p.record_reward_claim(0, u64::MAX), Err(ErrorCode::InsufficientRewards));
    assert_eq!(p.record_reward_claim(1, 0), Err(ErrorCode::RewardNotInitialized));
    assert_eq!(p.record_reward_claim(3, 0), Err(ErrorCode::InvalidRewardIndex));
    assert_eq!(p, before);
    assert_eq!(p.reward_infos[0].reward_claimed, 10);
    p.update_status(&key(11), 0b01000).unwrap();
    assert_eq!(p.record_reward_claim(0, 0), Err(ErrorCode::StatusDisabled));
    assert_eq!(p.record_reward_claim(3, 0), Err(ErrorCode::StatusDisabled));
    assert_eq!(ErrorCode::InsufficientRewards.kind(), ErrorKind::InvalidParameter);
}

#[test]
fn liquidity_change_settles_rewards_first() {
    let mut p = pool();
    p.initialize_reward(&key(60), &tier(), &whitelist(), 0, window(0, 1000, 6u128 << 64), key(1), key(2))
        .unwrap();
    p.increase_liquidity(0, 2).unwrap();
    // 100 seconds with liquidity 2, then liquidity 3
    p.increase_liquidity(100, 1).unwrap();
    assert_eq!(p.reward_infos[0].reward_growth_global_x64, 300u128 << 64);
    assert_eq!(p.reward_infos[0].reward_total_emissioned, 600);
    p.decrease_liquidity(200, 3).unwrap();
    assert_eq!(p.reward_infos[0].reward_growth_global_x64, 500u128 << 64);
    assert_eq!(p.reward_infos[0].reward_total_emissioned, 1200);
    // nothing in range from 200 to 300
    p.increase_liquidity(300, 1).unwrap();
    assert_eq!(p.reward_infos[0].reward_total_emissioned, 1200);
    assert_eq!(p.reward_infos[0].last_update_time, 300);
}
