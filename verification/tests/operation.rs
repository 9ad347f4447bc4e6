use clmm_pool::operation::{OPERATION_SIZE_USIZE, WHITE_MINT_SIZE_USIZE};
use clmm_pool::{
    create_operation_account, update_operation_account, CreateOperationAccount, ErrorCode,
    ErrorKind, OperationState, Pubkey, UpdateOperationAccount,
};

fn key(n: u8) -> Pubkey {
    Pubkey::new_from_array([n; 32])
}

#[test]
fn whitelist_sizes() {
    assert_eq!(OPERATION_SIZE_USIZE, 10);
    assert_eq!(WHITE_MINT_SIZE_USIZE, 100);
    assert_eq!(OperationState::LEN, 8 + 1 + 10 * 32 + 100 * 32);
}

#[test]
fn new_whitelist_lists_nobody() {
    let s = OperationState::new(9);
    assert_eq!(s.bump, 9);
    assert_eq!(s.operation_owners, [Pubkey::default(); 10]);
    assert_eq!(s.whitelist_mints, [Pubkey::default(); 100]);
    assert!(!s.is_authorized_funder(&key(1)));
    assert!(!s.is_whitelisted_mint(&key(1)));
    // the empty marker is never listed
    assert!(!s.is_authorized_funder(&Pubkey::default()));
    assert!(!s.is_whitelisted_mint(&Pubkey::default()));
}

#[test]
fn add_owner_uses_first_empty_slot() {
    let mut s = OperationState::new(0);
    assert_eq!(s.add_owner(key(1)), Ok(()));
    assert_eq!(s.add_owner(key(2)), Ok(()));
    assert_eq!(s.add_owner(key(3)), Ok(()));
    assert_eq!(s.operation_owners[0], key(1));
    assert_eq!(s.operation_owners[1], key(2));
    assert_eq!(s.operation_owners[2], key(3));
    assert!(s.is_authorized_funder(&key(2)));
    s.remove_owner(&key(2));
    assert!(!s.is_authorized_funder(&key(2)));
    assert_eq!(s.operation_owners[1], Pubkey::default());
    // nothing moved
    assert_eq!(s.operation_owners[0], key(1));
    assert_eq!(s.operation_owners[2], key(3));
    // the hole is filled first
    assert_eq!(s.add_owner(key(4)), Ok(()));
    assert_eq!(s.operation_owners[1], key(4));
    assert_eq!(s.operation_owners[3], Pubkey::default());
    assert_eq!(s.whitelist_mints, [Pubkey::default(); 100]);
}

#[test]
fn add_owner_fails_when_full() {
    let mut s = OperationState::new(0);
    for i in 1..=10u8 {
        assert_eq!(s.add_owner(key(i)), Ok(()));
    }
    let before = s;
    assert_eq!(s.add_owner(key(11)), Err(ErrorCode::WhitelistFull));
    // also for a key that is already there
    assert_eq!(s.add_owner(key(3)), Err(ErrorCode::WhitelistFull));
    assert_eq!(s, before);
    assert_eq!(ErrorCode::WhitelistFull.kind(), ErrorKind::WhitelistFull);
    s.remove_owner(&key(10));
    assert_eq!(s.add_owner(key(11)), Ok(()));
    assert_eq!(s.operation_owners[9], key(11));
}

#[test]
fn remove_empties_every_matching_slot() {
    let mut s = OperationState::new(0);
    s.add_mint(key(1)).unwrap();
    s.add_mint(key(2)).unwrap();
    s.add_mint(key(1)).unwrap();
    assert_eq!(s.whitelist_mints[2], key(1));
    s.remove_mint(&key(1));
    assert!(!s.is_whitelisted_mint(&key(1)));
    assert!(s.is_whitelisted_mint(&key(2)));
    assert_eq!(s.whitelist_mints[0], Pubkey::default());
    assert_eq!(s.whitelist_mints[1], key(2));
    assert_eq!(s.whitelist_mints[2], Pubkey::default());
    // removing what is not there changes nothing
    let before = s;
    s.remove_mint(&key(9));
    s.remove_mint(&Pubkey::default());
    assert_eq!(s, before);
}

#[test]
fn mints_fill_up_at_100() {
    let mut s = OperationState::new(0);
    for i in 0..100u8 {
        assert_eq!(s.add_mint(key(i + 1)), Ok(()));
    }
    assert_eq!(s.add_mint(key(200)), Err(ErrorCode::WhitelistFull));
    assert!(s.is_whitelisted_mint(&key(100)));
    assert!(!s.is_whitelisted_mint(&key(200)));
    assert!(!s.is_authorized_funder(&key(1)));
}

#[test]
fn batch_add_is_all_or_nothing() {
    let mut s = OperationState::new(0);
    for i in 1..=8u8 {
        s.add_owner(key(i)).unwrap();
    }
    let before = s;
    assert_eq!(s.add_owners(&vec![key(20), key(21), key(22)]), Err(ErrorCode::WhitelistFull));
    assert_eq!(s, before);
    assert_eq!(s.add_owners(&vec![key(20), key(21)]), Ok(()));
    assert_eq!(s.operation_owners[8], key(20));
    assert_eq!(s.operation_owners[9], key(21));
    assert_eq!(s.add_owners(&vec![]), Ok(()));
}

#[test]
fn batch_remove_takes_each_key_out() {
    let mut s = OperationState::new(0);
    s.add_owners(&vec![key(1), key(2), key(3), key(4)]).unwrap();
    s.remove_owners(&vec![key(2), key(4), key(9)]);
    assert!(s.is_authorized_funder(&key(1)));
    assert!(!s.is_authorized_funder(&key(2)));
    assert!(s.is_authorized_funder(&key(3)));
    assert!(!s.is_authorized_funder(&key(4)));
    s.add_mints(&vec![key(5), key(6)]).unwrap();
    s.remove_mints(&vec![key(5)]);
    assert!(!s.is_whitelisted_mint(&key(5)));
    assert!(s.is_whitelisted_mint(&key(6)));
}

#[test]
fn create_operation_account_empties_the_record() {
    let mut dirty = OperationState::new(1);
    dirty.add_owner(key(1)).unwrap();
    let mut ctx = CreateOperationAccount { owner: key(3), operation_state: dirty, bump: 77 };
    assert_eq!(create_operation_account(&mut ctx), Ok(()));
    assert_eq!(ctx.operation_state, OperationState::new(77));
    assert_eq!(ctx.owner, key(3));
}

#[test]
fn update_operation_account_by_selector() {
    let mut ctx = UpdateOperationAccount { owner: key(3), operation_state: OperationState::new(0) };
    assert_eq!(update_operation_account(&mut ctx, 0, vec![key(1), key(2)]), Ok(()));
    assert!(ctx.operation_state.is_authorized_funder(&key(1)));
    assert!(ctx.operation_state.is_authorized_funder(&key(2)));
    assert_eq!(update_operation_account(&mut ctx, 1, vec![key(1)]), Ok(()));
    assert!(!ctx.operation_state.is_authorized_funder(&key(1)));
    assert_eq!(update_operation_account(&mut ctx, 2, vec![key(7)]), Ok(()));
    assert!(ctx.operation_state.is_whitelisted_mint(&key(7)));
    assert!(!ctx.operation_state.is_authorized_funder(&key(7)));
    assert_eq!(update_operation_account(&mut ctx, 3, vec![key(7)]), Ok(()));
    assert!(!ctx.operation_state.is_whitelisted_mint(&key(7)));
    let before = ctx;
    assert_eq!(update_operation_account(&mut ctx, 4, vec![key(7)]), Err(ErrorCode::InvalidSelector));
    assert_eq!(ctx, before);
}

#[test]
fn update_operation_account_full_list_is_refused_whole() {
    let mut ctx = UpdateOperationAccount { owner: key(3), operation_state: OperationState::new(0) };
    let eleven: Vec<Pubkey> = (1..=11u8).map(key).collect();
    assert_eq!(update_operation_account(&mut ctx, 0, eleven), Err(ErrorCode::WhitelistFull));
    assert_eq!(ctx.operation_state, OperationState::new(0));
    let ten: Vec<Pubkey> = (1..=10u8).map(key).collect();
    assert_eq!(update_operation_account(&mut ctx, 0, ten), Ok(()));
    assert!(ctx.operation_state.is_authorized_funder(&key(10)));
}
