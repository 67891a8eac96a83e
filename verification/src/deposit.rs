//! Locking tokens in a pool's vault.

use vstd::prelude::*;
use crate::context::Context;
use crate::error::StakingError;
use crate::pubkey::Pubkey;
use crate::state::{Account, StakePool, UserStakeAccount};
use crate::token::{transfer, transfer_error, TokenAccount};

verus! {

/// The accounts of a `stake` instruction.
#[derive(Clone, Copy, Debug, PartialEq, Eq)]
pub struct Stake {
    /// The caller, whose signature the runtime has checked.
    pub user: Pubkey,
    /// The token account that the tokens come from.
    pub user_staking_token_account: Account<TokenAccount>,
    /// The vault that holds the pool's staked tokens.
    pub staking_vault: Account<TokenAccount>,
    /// The caller's position in the pool.
    pub user_stake_account: Account<UserStakeAccount>,
    /// The pool, whose record names the one vault that may take the tokens.
    pub stake_pool: Account<StakePool>,
}

impl Stake {
    /// What is wrong with the accounts themselves, whatever the amount:
    /// the first of these that applies.
    ///
    /// - `InvalidAccountOwnership`: one of the four account slots is empty.
    /// - `AuthorizationFailure`: the position is not the caller's.
    /// - `InvalidAccountRelationship`: the position belongs to another pool,
    ///   the vault is not the one that the pool's record names as its
    ///   staking vault, does not hold the pool's staking asset or does not
    ///   answer to the pool's address, or the source account is the vault
    ///   itself.
    ///
    /// So tokens put anywhere else than into the pool's own staking vault,
    /// be it the pool's reward vault or an account that somebody opened in
    /// the pool's name, are never credited.
    pub open spec fn account_error(self) -> Option<StakingError> {
        if self.user_stake_account.data is None || self.stake_pool.data is None
            || self.staking_vault.data is None || self.user_staking_token_account.data is None {
            Some(StakingError::InvalidAccountOwnership)
        } else {
            let position = self.user_stake_account.data->0;
            let pool = self.stake_pool.data->0;
            let vault = self.staking_vault.data->0;
            if position.user != self.user {
                Some(StakingError::AuthorizationFailure)
            } else if position.stake_pool != self.stake_pool.key || self.staking_vault.key
                != pool.staking_vault || vault.mint != pool.staking_mint || vault.owner
                != self.stake_pool.key || self.user_staking_token_account.key
                == self.staking_vault.key {
                Some(StakingError::InvalidAccountRelationship)
            } else {
                None
            }
        }
    }
}

/// Why `stake` refuses, or `None` if it goes through: a fault in the
/// accounts, then whatever the transfer into the vault objects to (with
/// `InsufficientFunds` for a source that holds less than `amount`), then a
/// stake that would leave the 64-bit range.
pub open spec fn stake_error(ctx: Context<Stake>, amount: u64) -> Option<StakingError> {
    let accounts = ctx.accounts;
    if accounts.account_error() is Some {
        accounts.account_error()
    } else if transfer_error(
        accounts.user_staking_token_account.data->0,
        accounts.staking_vault.data->0,
        accounts.user,
        amount,
    ) is Some {
        transfer_error(
            accounts.user_staking_token_account.data->0,
            accounts.staking_vault.data->0,
            accounts.user,
            amount,
        )
    } else if accounts.user_stake_account.data->0.staked_amount + amount > u64::MAX {
        Some(StakingError::ArithmeticOverflow)
    } else {
        None
    }
}

/// The accounts after a successful `stake` at time `now`: `amount` has left
/// the source account and has reached the vault and the position, which
/// remembers the time.
pub open spec fn stake_effect(ctx: Context<Stake>, amount: u64, now: i64) -> Context<Stake> {
    let accounts = ctx.accounts;
    let source = accounts.user_staking_token_account.data->0;
    let vault = accounts.staking_vault.data->0;
    let position = accounts.user_stake_account.data->0;
    Context {
        accounts: Stake {
            user_staking_token_account: Account {
                data: Some(source.with_amount(source.amount - amount)),
                ..accounts.user_staking_token_account
            },
            staking_vault: Account {
                data: Some(vault.with_amount(vault.amount + amount)),
                ..accounts.staking_vault
            },
            user_stake_account: Account {
                data: Some(position.credited(amount, now)),
                ..accounts.user_stake_account
            },
            ..accounts
        },
        ..ctx
    }
}

/// Moves `amount` tokens from the caller's token account into the pool's
/// staking vault and credits them to the caller's position. `now` is the
/// ledger's current timestamp.
///
/// The call succeeds exactly when [`stake_error`] finds nothing; it then
/// leaves the accounts as [`stake_effect`] describes. Otherwise it returns
/// the error found and changes nothing. Nothing is credited unless the
/// tokens reach the vault that the pool's record names.
pub fn stake(ctx: &mut Context<Stake>, amount: u64, now: i64) -> (res: Result<(), StakingError>)
    ensures
        match stake_error(*old(ctx), amount) {
            Some(e) => res == Err::<(), StakingError>(e) && *final(ctx) == *old(ctx),
            None => res == Ok::<(), StakingError>(()) && *final(ctx) == stake_effect(
                *old(ctx),
                amount,
                now,
            ),
        },
        res is Ok ==> final(ctx).accounts.user_stake_account.data->0.staked_amount == old(
            ctx,
        ).accounts.user_stake_account.data->0.staked_amount + amount
            && final(ctx).accounts.staking_vault.data->0.amount == old(
            ctx,
        ).accounts.staking_vault.data->0.amount + amount
            && final(ctx).accounts.user_stake_account.data->0.last_staked_timestamp == now,
        res is Ok ==> old(ctx).accounts.stake_pool.data is Some && old(
            ctx,
        ).accounts.staking_vault.key == old(ctx).accounts.stake_pool.data->0.staking_vault
            && old(ctx).accounts.staking_vault.data->0.mint == old(
            ctx,
        ).accounts.stake_pool.data->0.staking_mint,
{
    let (mut position, pool, mut vault, mut source) = match (
        ctx.accounts.user_stake_account.data,
        ctx.accounts.stake_pool.data,
        ctx.accounts.staking_vault.data,
        ctx.accounts.user_staking_token_account.data,
    ) {
        (Some(position), Some(pool), Some(vault), Some(source)) => (position, pool, vault, source),
        _ => {
            return Err(StakingError::InvalidAccountOwnership);
        },
    };
    if position.user != ctx.accounts.user {
        return Err(StakingError::AuthorizationFailure);
    }
    let authority = ctx.accounts.stake_pool.key;
    if position.stake_pool != authority || ctx.accounts.staking_vault.key != pool.staking_vault
        || vault.mint != pool.staking_mint || vault.owner != authority
        || ctx.accounts.user_staking_token_account.key == ctx.accounts.staking_vault.key {
        return Err(StakingError::InvalidAccountRelationship);
    }
    transfer(&mut source, &mut vault, &ctx.accounts.user, amount)?;
    position.credit(amount, now)?;
    ctx.accounts.user_staking_token_account.data = Some(source);
    ctx.accounts.staking_vault.data = Some(vault);
    ctx.accounts.user_stake_account.data = Some(position);
    Ok(())
}

} // verus!
