use staking_dapp::state::{STAKE_POOL_SPACE, USER_STAKE_ACCOUNT_SPACE};
use staking_dapp::token::transfer;
use staking_dapp::{Account, Pubkey, StakingError, TokenAccount, UserStakeAccount};

fn key(n: u8) -> Pubkey {
    Pubkey::new_from_array([n; 32])
}

fn position(staked_amount: u64, last_staked_timestamp: i64) -> UserStakeAccount {
    UserStakeAccount { user: key(1), stake_pool: key(2), staked_amount, last_staked_timestamp }
}

fn tokens(owner: u8, mint: u8, amount: u64) -> TokenAccount {
    TokenAccount { mint: key(mint), owner: key(owner), amount }
}

#[test]
fn addresses_compare_by_their_bytes() {
    let mut bytes = [5u8; 32];
    assert_eq!(Pubkey::new_from_array(bytes), key(5));
    bytes[31] = 6;
    assert_ne!(Pubkey::new_from_array(bytes), key(5));
    bytes[31] = 5;
    bytes[0] = 4;
    assert_ne!(Pubkey::new_from_array(bytes), key(5));
    assert_eq!(Pubkey::new_from_array(bytes).to_bytes(), bytes);
}

#[test]
fn slots_are_empty_or_hold_a_record() {
    let slot: Account<UserStakeAccount> = Account::empty(key(3));
    assert_eq!(slot.key, key(3));
    assert_eq!(slot.data, None);
    let held = Account::new(key(4), position(10, 20));
    assert_eq!(held.key, key(4));
    assert_eq!(held.data, Some(position(10, 20)));
}

#[test]
fn records_have_their_fixed_sizes() {
    assert_eq!(STAKE_POOL_SPACE, 169);
    assert_eq!(USER_STAKE_ACCOUNT_SPACE, 88);
}

#[test]
fn errors_have_their_messages() {
    assert_eq!(StakingError::InsufficientStake.message(), "Insufficient staked amount to unstake.");
    assert_eq!(StakingError::AlreadyInitialized.message(), "The account is already initialized.");
    assert_eq!(
        StakingError::InvalidAccountOwnership.message(),
        "An account is not of the expected kind."
    );
    assert_eq!(
        StakingError::InvalidAccountRelationship.message(),
        "The accounts do not belong together."
    );
    assert_eq!(
        StakingError::InsufficientFunds.message(),
        "Insufficient funds in the source token account."
    );
    assert_eq!(StakingError::ArithmeticOverflow.message(), "Arithmetic overflow.");
    assert_eq!(StakingError::ArithmeticUnderflow.message(), "Arithmetic underflow.");
    assert_eq!(
        StakingError::AuthorizationFailure.message(),
        "The caller may not authorize this action."
    );
}

#[test]
fn credit_adds_and_records_the_time() {
    let mut p = position(100, 5);
    assert_eq!(p.credit(50, 77), Ok(()));
    assert_eq!(p, position(150, 77));
    assert_eq!(p.credit(0, -3), Ok(()));
    assert_eq!(p, position(150, -3));
    assert_eq!(p.credit(u64::MAX - 150, 9), Ok(()));
    assert_eq!(p, position(u64::MAX, 9));
}

#[test]
fn credit_beyond_the_range_is_refused() {
    let mut p = position(u64::MAX - 10, 5);
    assert_eq!(p.credit(11, 77), Err(StakingError::ArithmeticOverflow));
    assert_eq!(p, position(u64::MAX - 10, 5));
    assert_eq!(p.credit(u64::MAX, 77), Err(StakingError::ArithmeticOverflow));
    assert_eq!(p, position(u64::MAX - 10, 5));
}

#[test]
fn debit_subtracts_and_keeps_the_time() {
    let mut p = position(100, 5);
    assert_eq!(p.debit(30), Ok(()));
    assert_eq!(p, position(70, 5));
    assert_eq!(p.debit(70), Ok(()));
    assert_eq!(p, position(0, 5));
    assert_eq!(p.debit(0), Ok(()));
    assert_eq!(p, position(0, 5));
}

#[test]
fn debit_below_zero_is_refused() {
    let mut p = position(100, 5);
    assert_eq!(p.debit(101), Err(StakingError::ArithmeticUnderflow));
    assert_eq!(p, position(100, 5));
    let mut empty = position(0, 0);
    assert_eq!(empty.debit(1), Err(StakingError::ArithmeticUnderflow));
    assert_eq!(empty, position(0, 0));
}

#[test]
fn transfer_moves_the_exact_amount() {
    let mut from = tokens(1, 9, 500);
    let mut to = tokens(2, 9, 40);
    assert_eq!(transfer(&mut from, &mut to, &key(1), 120), Ok(()));
    assert_eq!(from, tokens(1, 9, 380));
    assert_eq!(to, tokens(2, 9, 160));
    assert_eq!(transfer(&mut from, &mut to, &key(1), 380), Ok(()));
    assert_eq!(from, tokens(1, 9, 0));
    assert_eq!(to, tokens(2, 9, 540));
    assert_eq!(transfer(&mut from, &mut to, &key(1), 0), Ok(()));
    assert_eq!(from, tokens(1, 9, 0));
    assert_eq!(to, tokens(2, 9, 540));
}

#[test]
fn transfer_needs_the_owner() {
    let mut from = tokens(1, 9, 500);
    let mut to = tokens(2, 9, 40);
    assert_eq!(transfer(&mut from, &mut to, &key(2), 1), Err(StakingError::AuthorizationFailure));
    assert_eq!(from, tokens(1, 9, 500));
    assert_eq!(to, tokens(2, 9, 40));
}

#[test]
fn transfer_needs_one_asset() {
    let mut from = tokens(1, 9, 500);
    let mut to = tokens(2, 8, 40);
    assert_eq!(
        transfer(&mut from, &mut to, &key(1), 1),
        Err(StakingError::InvalidAccountRelationship)
    );
    assert_eq!(from, tokens(1, 9, 500));
    assert_eq!(to, tokens(2, 8, 40));
}

#[test]
fn transfer_needs_the_funds() {
    let mut from = tokens(1, 9, 500);
    let mut to = tokens(2, 9, 40);
    assert_eq!(transfer(&mut from, &mut to, &key(1), 501), Err(StakingError::InsufficientFunds));
    assert_eq!(from, tokens(1, 9, 500));
    assert_eq!(to, tokens(2, 9, 40));
}

#[test]
fn transfer_needs_room() {
    let mut from = tokens(1, 9, 500);
    let mut to = tokens(2, 9, u64::MAX - 99);
    assert_eq!(transfer(&mut from, &mut to, &key(1), 100), Err(StakingError::ArithmeticOverflow));
    assert_eq!(from, tokens(1, 9, 500));
    assert_eq!(to, tokens(2, 9, u64::MAX - 99));
    assert_eq!(transfer(&mut from, &mut to, &key(1), 99), Ok(()));
    assert_eq!(to, tokens(2, 9, u64::MAX));
}

#[test]
fn transfer_checks_in_order() {
    // A stranger, another asset and too little money: the stranger is told off first.
    let mut from = tokens(1, 9, 5);
    let mut to = tokens(2, 8, u64::MAX);
    assert_eq!(transfer(&mut from, &mut to, &key(3), 6), Err(StakingError::AuthorizationFailure));
    assert_eq!(
        transfer(&mut from, &mut to, &key(1), 6),
        Err(StakingError::InvalidAccountRelationship)
    );
    let mut same = tokens(2, 9, u64::MAX);
    assert_eq!(transfer(&mut from, &mut same, &key(1), 6), Err(StakingError::InsufficientFunds));
    assert_eq!(transfer(&mut from, &mut same, &key(1), 5), Err(StakingError::ArithmeticOverflow));
}
