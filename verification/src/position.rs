//! Opening a user's position in a pool.

use vstd::prelude::*;
use crate::context::Context;
use crate::error::StakingError;
use crate::pubkey::Pubkey;
use crate::state::{Account, StakePool, UserStakeAccount};

verus! {

/// The accounts of a `create_user_stake_account` instruction.
#[derive(Clone, Copy, Debug, PartialEq, Eq)]
pub struct CreateUserStakeAccount {
    /// The slot for the position's record.
    pub user_stake_account: Account<UserStakeAccount>,
    /// The caller, whose signature the runtime has checked.
    pub user: Pubkey,
    /// The pool in which the position is opened.
    pub stake_pool: Account<StakePool>,
}

/// Why `create_user_stake_account` refuses, or `None` if it goes through:
/// `AlreadyInitialized` if the position's slot already holds a record, else
/// `InvalidAccountOwnership` if the pool's slot holds none.
pub open spec fn create_error(ctx: Context<CreateUserStakeAccount>) -> Option<StakingError> {
    if ctx.accounts.user_stake_account.data is Some {
        Some(StakingError::AlreadyInitialized)
    } else if ctx.accounts.stake_pool.data is None {
        Some(StakingError::InvalidAccountOwnership)
    } else {
        None
    }
}

/// The accounts after a successful `create_user_stake_account`: the slot
/// holds the caller's position in the pool, with nothing staked and the
/// timestamp at zero.
pub open spec fn create_effect(ctx: Context<CreateUserStakeAccount>) -> Context<
    CreateUserStakeAccount,
> {
    let accounts = ctx.accounts;
    Context {
        accounts: CreateUserStakeAccount {
            user_stake_account: Account {
                data: Some(
                    UserStakeAccount {
                        user: accounts.user,
                        stake_pool: accounts.stake_pool.key,
                        staked_amount: 0,
                        last_staked_timestamp: 0,
                    },
                ),
                ..accounts.user_stake_account
            },
            ..accounts
        },
        ..ctx
    }
}

/// Opens the caller's position in a pool, with nothing staked.
///
/// The call succeeds exactly when [`create_error`] finds nothing; it then
/// leaves the accounts as [`create_effect`] describes. Otherwise it returns
/// the error found and changes nothing. A slot that holds a position is
/// never written again.
pub fn create_user_stake_account(ctx: &mut Context<CreateUserStakeAccount>) -> (res: Result<
    (),
    StakingError,
>)
    ensures
        match create_error(*old(ctx)) {
            Some(e) => res == Err::<(), StakingError>(e) && *final(ctx) == *old(ctx),
            None => res == Ok::<(), StakingError>(()) && *final(ctx) == create_effect(*old(ctx)),
        },
        old(ctx).accounts.user_stake_account.data is Some ==> res == Err::<(), StakingError>(
            StakingError::AlreadyInitialized,
        ),
{
    if ctx.accounts.user_stake_account.data.is_some() {
        return Err(StakingError::AlreadyInitialized);
    }
    if ctx.accounts.stake_pool.data.is_none() {
        return Err(StakingError::InvalidAccountOwnership);
    }
    ctx.accounts.user_stake_account.data = Some(
        UserStakeAccount {
            user: ctx.accounts.user,
            stake_pool: ctx.accounts.stake_pool.key,
            staked_amount: 0,
            last_staked_timestamp: 0,
        },
    );
    Ok(())
}

} // verus!
