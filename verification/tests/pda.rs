use clmm_pool::pda::{
    amm_config_seeds, devnet_id, find_amm_config_address, pool_address_at, pool_signer_seeds,
    AMM_CONFIG_SEED, find_observation_address, find_operation_address, find_pool_address,
    find_pool_reward_vault_address, find_pool_vault_address,
    find_tick_array_bitmap_extension_address, id, observation_seeds, operation_seeds, pool_seeds,
    pool_reward_vault_seeds, pool_vault_seeds, seed_bytes, tick_array_bitmap_extension_seeds,
    DEVNET_ID_BYTES, ID_BYTES, MAX_SEEDS, MAX_SEED_LEN, OBSERVATION_SEED, OPERATION_SEED,
    POOL_REWARD_VAULT_SEED, POOL_SEED, POOL_TICK_ARRAY_BITMAP_SEED, POOL_VAULT_SEED,
};
use clmm_pool::pool::PoolParams;
use clmm_pool::{PoolState, Pubkey};
use std::str::FromStr;

fn key(n: u8) -> Pubkey {
    Pubkey::new_from_array([n; 32])
}

fn outside(k: &Pubkey) -> anchor_lang::prelude::Pubkey {
    anchor_lang::prelude::Pubkey::new_from_array(k.bytes)
}

#[test]
fn program_ids_decode_from_base58() {
    let main = anchor_lang::prelude::Pubkey::from_str("CAMMCzo5YL8w4VFF8KVHrK22GGUsp5VTaW7grrKgrWqK")
        .unwrap();
    assert_eq!(id().to_bytes(), main.to_bytes());
    assert_eq!(ID_BYTES, main.to_bytes());
    let dev = anchor_lang::prelude::Pubkey::from_str("devi51mZmdwUJGU9hjN27vEz64Gps7uUefqxg27EAtH")
        .unwrap();
    assert_eq!(devnet_id().to_bytes(), dev.to_bytes());
    assert_eq!(DEVNET_ID_BYTES, dev.to_bytes());
}

#[test]
fn tags_are_their_ascii_bytes() {
    assert_eq!(POOL_SEED, "pool");
    assert_eq!(POOL_VAULT_SEED, "pool_vault");
    assert_eq!(POOL_REWARD_VAULT_SEED, "pool_reward_vault");
    assert_eq!(POOL_TICK_ARRAY_BITMAP_SEED, "pool_tick_array_bitmap_extension");
    assert_eq!(OPERATION_SEED, "operation");
    assert_eq!(OBSERVATION_SEED, "observation");
    assert_eq!(seed_bytes(POOL_SEED), b"pool".to_vec());
    assert_eq!(seed_bytes(""), Vec::<u8>::new());
    assert_eq!(MAX_SEEDS, 16);
    assert_eq!(MAX_SEED_LEN, 32);
    assert_eq!(POOL_TICK_ARRAY_BITMAP_SEED.len(), 32);
}

#[test]
fn seed_lists_by_record() {
    assert_eq!(
        pool_seeds(&key(1), &key(2), &key(3)),
        vec![b"pool".to_vec(), vec![1u8; 32], vec![2u8; 32], vec![3u8; 32]]
    );
    assert_eq!(
        pool_vault_seeds(&key(1), &key(2)),
        vec![b"pool_vault".to_vec(), vec![1u8; 32], vec![2u8; 32]]
    );
    assert_eq!(
        pool_reward_vault_seeds(&key(1), &key(2)),
        vec![b"pool_reward_vault".to_vec(), vec![1u8; 32], vec![2u8; 32]]
    );
    assert_eq!(
        tick_array_bitmap_extension_seeds(&key(1)),
        vec![b"pool_tick_array_bitmap_extension".to_vec(), vec![1u8; 32]]
    );
    assert_eq!(observation_seeds(&key(1)), vec![b"observation".to_vec(), vec![1u8; 32]]);
    assert_eq!(operation_seeds(), vec![b"operation".to_vec()]);
}

#[test]
fn found_addresses_match_the_runtime() {
    let program = id();
    let (a, bump) = find_pool_address(&program, &key(1), &key(2), &key(3)).unwrap();
    let (ea, eb) = anchor_lang::prelude::Pubkey::find_program_address(
        &[b"pool", &[1u8; 32], &[2u8; 32], &[3u8; 32]],
        &outside(&program),
    );
    assert_eq!((a.to_bytes(), bump), (ea.to_bytes(), eb));
    // not the program id handed back, and not a seed
    assert_ne!(a, program);
    assert_ne!(a, key(1));

    let (v, vb) = find_pool_vault_address(&program, &a, &key(2)).unwrap();
    let (ev, evb) = anchor_lang::prelude::Pubkey::find_program_address(
        &[b"pool_vault", &a.bytes, &[2u8; 32]],
        &outside(&program),
    );
    assert_eq!((v.to_bytes(), vb), (ev.to_bytes(), evb));

    let (r, rb) = find_pool_reward_vault_address(&program, &a, &key(2)).unwrap();
    let (er, erb) = anchor_lang::prelude::Pubkey::find_program_address(
        &[b"pool_reward_vault", &a.bytes, &[2u8; 32]],
        &outside(&program),
    );
    assert_eq!((r.to_bytes(), rb), (er.to_bytes(), erb));
    assert_ne!(r, v);

    let (t, tb) = find_tick_array_bitmap_extension_address(&program, &a).unwrap();
    let (et, etb) = anchor_lang::prelude::Pubkey::find_program_address(
        &[b"pool_tick_array_bitmap_extension", &a.bytes],
        &outside(&program),
    );
    assert_eq!((t.to_bytes(), tb), (et.to_bytes(), etb));

    let (o, ob) = find_observation_address(&program, &a).unwrap();
    let (eo, eob) = anchor_lang::prelude::Pubkey::find_program_address(
        &[b"observation", &a.bytes],
        &outside(&program),
    );
    assert_eq!((o.to_bytes(), ob), (eo.to_bytes(), eob));

    let (w, wb) = find_operation_address(&program).unwrap();
    let (ew, ewb) =
        anchor_lang::prelude::Pubkey::find_program_address(&[b"operation"], &outside(&program));
    assert_eq!((w.to_bytes(), wb), (ew.to_bytes(), ewb));
}

#[test]
fn addresses_depend_on_the_program() {
    let a = find_operation_address(&id()).unwrap();
    let b = find_operation_address(&devnet_id()).unwrap();
    assert_ne!(a.0, b.0);
}

fn pool_with_bump(bump: u8) -> PoolState {
    PoolState::new(PoolParams {
        bump,
        amm_config: key(1),
        owner: key(11),
        token_mint_0: key(2),
        token_mint_1: key(3),
        token_vault_0: key(30),
        token_vault_1: key(31),
        observation_key: key(40),
        mint_decimals_0: 6,
        mint_decimals_1: 9,
        tick_spacing: 60,
        sqrt_price_x64: 1u128 << 64,
        tick_current: 0,
        open_time: 0,
    })
    .unwrap()
}

#[test]
fn pool_seeds_end_with_the_bump() {
    let p = pool_with_bump(251);
    assert_eq!(
        p.seeds(),
        vec![b"pool".to_vec(), vec![1u8; 32], vec![2u8; 32], vec![3u8; 32], vec![251u8]]
    );
}

#[test]
fn pool_key_is_the_found_address() {
    let (address, bump) = find_pool_address(&id(), &key(1), &key(2), &key(3)).unwrap();
    let p = pool_with_bump(bump);
    assert_eq!(p.key(), Some(address));
    // with another bump the key is another address, or none
    let other = pool_with_bump(bump.wrapping_sub(1)).key();
    assert!(other != Some(address));
    let expected = anchor_lang::prelude::Pubkey::create_program_address(
        &[b"pool", &[1u8; 32], &[2u8; 32], &[3u8; 32], &[bump]],
        &outside(&id()),
    )
    .unwrap();
    assert_eq!(p.key().unwrap().to_bytes(), expected.to_bytes());
}

#[test]
fn pool_key_is_none_where_the_runtime_derives_none() {
    // some bump below the found one lands on the curve for these seeds
    let mut seen_none = false;
    for bump in 0..=255u8 {
        let p = pool_with_bump(bump);
        let expected = anchor_lang::prelude::Pubkey::create_program_address(
            &[b"pool", &[1u8; 32], &[2u8; 32], &[3u8; 32], &[bump]],
            &outside(&id()),
        )
        .ok()
        .map(|k| k.to_bytes());
        assert_eq!(p.key().map(|k| k.to_bytes()), expected);
        seen_none = seen_none || expected.is_none();
    }
    assert!(seen_none);
}

#[test]
fn fee_tier_seeds_hold_the_index_high_byte_first() {
    assert_eq!(AMM_CONFIG_SEED, "amm_config");
    assert_eq!(amm_config_seeds(0x0102), vec![b"amm_config".to_vec(), vec![1u8, 2u8]]);
    assert_eq!(amm_config_seeds(0), vec![b"amm_config".to_vec(), vec![0u8, 0u8]]);
    assert_eq!(amm_config_seeds(u16::MAX), vec![b"amm_config".to_vec(), vec![255u8, 255u8]]);
    assert_eq!(amm_config_seeds(300)[1], 300u16.to_be_bytes().to_vec());
}

#[test]
fn fee_tier_address_matches_the_runtime() {
    let program = id();
    let (a, bump) = find_amm_config_address(&program, 7).unwrap();
    let (ea, eb) = anchor_lang::prelude::Pubkey::find_program_address(
        &[b"amm_config", &7u16.to_be_bytes()],
        &outside(&program),
    );
    assert_eq!((a.to_bytes(), bump), (ea.to_bytes(), eb));
    assert_ne!(find_amm_config_address(&program, 8).unwrap().0, a);
}

#[test]
fn pool_address_at_the_found_bump_is_the_found_address() {
    let program = devnet_id();
    let (address, bump) = find_pool_address(&program, &key(1), &key(2), &key(3)).unwrap();
    assert_eq!(pool_address_at(&program, &key(1), &key(2), &key(3), bump), Some(address));
    assert_ne!(pool_address_at(&id(), &key(1), &key(2), &key(3), bump), Some(address));
}

#[test]
fn pool_signer_seeds_end_with_the_bump() {
    assert_eq!(
        pool_signer_seeds(&key(1), &key(2), &key(3), 9),
        vec![b"pool".to_vec(), vec![1u8; 32], vec![2u8; 32], vec![3u8; 32], vec![9u8]]
    );
}
