//! The records that the program keeps on the ledger.

use vstd::prelude::*;
use crate::error::StakingError;
use crate::pubkey::Pubkey;

verus! {

/// The bytes that a pool record takes on the ledger: a tag of 8 bytes, five
/// addresses and the bump seed.
pub const STAKE_POOL_SPACE: usize = 8 + 32 + 32 + 32 + 32 + 32 + 1;

/// The bytes that a position record takes on the ledger: a tag of 8 bytes,
/// two addresses, the staked amount and the timestamp.
pub const USER_STAKE_ACCOUNT_SPACE: usize = 8 + 32 + 32 + 8 + 8;

/// An account slot of the ledger as the runtime hands it to a handler: its
/// address, and the record it holds if it has been initialized.
#[derive(Debug, PartialEq, Eq)]
pub struct Account<T> {
    pub key: Pubkey,
    pub data: Option<T>,
}

impl<T> Account<T> {
    /// A slot that holds nothing yet.
    pub fn empty(key: Pubkey) -> (slot: Account<T>)
        ensures
            slot.key == key,
            slot.data is None,
    {
        Account { key, data: None }
    }

    /// An account that holds `data`.
    pub fn new(key: Pubkey, data: T) -> (account: Account<T>)
        ensures
            account.key == key,
            account.data == Some(data),
    {
        Account { key, data: Some(data) }
    }
}

impl<T: Copy> Clone for Account<T> {
    fn clone(&self) -> (copy: Self)
        ensures
            copy == *self,
    {
        *self
    }
}

impl<T: Copy> Copy for Account<T> {

}

/// A pool: one per administrator. Its own address is its signing authority.
#[derive(Clone, Copy, Debug, PartialEq, Eq)]
pub struct StakePool {
    pub staking_mint: Pubkey,
    pub staking_vault: Pubkey,
    pub reward_mint: Pubkey,
    pub reward_vault: Pubkey,
    pub admin: Pubkey,
    pub bump: u8,
}

/// A user's position in one pool.
#[derive(Clone, Copy, Debug, PartialEq, Eq)]
pub struct UserStakeAccount {
    pub user: Pubkey,
    pub stake_pool: Pubkey,
    pub staked_amount: u64,
    pub last_staked_timestamp: i64,
}

impl UserStakeAccount {
    /// This position with `amount` more staked at time `now`.
    pub open spec fn credited(self, amount: u64, now: i64) -> UserStakeAccount {
        UserStakeAccount {
            staked_amount: (self.staked_amount + amount) as u64,
            last_staked_timestamp: now,
            ..self
        }
    }

    /// This position with `amount` less staked. The timestamp stays.
    pub open spec fn debited(self, amount: u64) -> UserStakeAccount {
        UserStakeAccount { staked_amount: (self.staked_amount - amount) as u64, ..self }
    }

    /// Adds `amount` to the stake and records the time, unless the sum
    /// leaves the 64-bit range.
    pub fn credit(&mut self, amount: u64, now: i64) -> (res: Result<(), StakingError>)
        ensures
            old(self).staked_amount + amount <= u64::MAX ==> res == Ok::<(), StakingError>(())
                && *final(self) == old(self).credited(amount, now),
            old(self).staked_amount + amount > u64::MAX ==> res == Err::<(), StakingError>(
                StakingError::ArithmeticOverflow,
            ) && *final(self) == *old(self),
    {
        match self.staked_amount.checked_add(amount) {
            Some(sum) => {
                self.staked_amount = sum;
                self.last_staked_timestamp = now;
                Ok(())
            },
            None => Err(StakingError::ArithmeticOverflow),
        }
    }

    /// Takes `amount` from the stake, unless more is asked than is there.
    pub fn debit(&mut self, amount: u64) -> (res: Result<(), StakingError>)
        ensures
            amount <= old(self).staked_amount ==> res == Ok::<(), StakingError>(()) && *final(self)
                == old(self).debited(amount),
            amount > old(self).staked_amount ==> res == Err::<(), StakingError>(
                StakingError::ArithmeticUnderflow,
            ) && *final(self) == *old(self),
    {
        match self.staked_amount.checked_sub(amount) {
            Some(rest) => {
                self.staked_amount = rest;
                Ok(())
            },
            None => Err(StakingError::ArithmeticUnderflow),
        }
    }
}

} // verus!
