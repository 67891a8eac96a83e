//! Reclaiming staked tokens from a pool's vault.

use vstd::prelude::*;
use crate::authority::{authority_with_bump, create_pool_authority, key_view};
use crate::context::Context;
use crate::error::StakingError;
use crate::pubkey::Pubkey;
use crate::state::{Account, StakePool, UserStakeAccount};
use crate::token::{transfer, transfer_error, TokenAccount};

verus! {

/// The accounts of an `unstake` instruction.
#[derive(Clone, Copy, Debug, PartialEq, Eq)]
pub struct Unstake {
    /// The caller, whose signature the runtime has checked.
    pub user: Pubkey,
    /// The token account that receives the tokens.
    pub user_staking_token_account: Account<TokenAccount>,
    /// The vault that holds the pool's staked tokens.
    pub staking_vault: Account<TokenAccount>,
    /// The caller's position in the pool.
    pub user_stake_account: Account<UserStakeAccount>,
    /// The pool, from whose record the signing authority is derived again.
    pub stake_pool: Account<StakePool>,
}

impl Unstake {
    /// What is wrong with the accounts themselves, whatever the amount,
    /// when the pool's administrator and stored bump seed derive `derived`:
    /// the first of these that applies.
    ///
    /// - `InvalidAccountOwnership`: one of the four account slots is empty.
    /// - `AuthorizationFailure`: the position is not the caller's.
    /// - `InvalidAccountRelationship`: the position belongs to another pool,
    ///   the vault is not the pool's staking vault, the receiving account is
    ///   the vault itself, or `derived` is not the pool's own address.
    pub open spec fn account_error_with(self, derived: Option<Seq<u8>>) -> Option<StakingError> {
        if self.user_stake_account.data is None || self.stake_pool.data is None
            || self.staking_vault.data is None || self.user_staking_token_account.data is None {
            Some(StakingError::InvalidAccountOwnership)
        } else {
            let position = self.user_stake_account.data->0;
            let pool = self.stake_pool.data->0;
            if position.user != self.user {
                Some(StakingError::AuthorizationFailure)
            } else if position.stake_pool != self.stake_pool.key || self.staking_vault.key
                != pool.staking_vault || self.user_staking_token_account.key
                == self.staking_vault.key || derived != Some(self.stake_pool.key@) {
                Some(StakingError::InvalidAccountRelationship)
            } else {
                None
            }
        }
    }

    /// What the pool's record derives under `program_id`: the authority of
    /// its administrator with the bump seed that the record stores, and no
    /// other.
    pub open spec fn derived_authority(self, program_id: Pubkey) -> Option<Seq<u8>> {
        authority_with_bump(self.stake_pool.data->0.admin, self.stake_pool.data->0.bump, program_id)
    }

    /// What is wrong with the accounts themselves under `program_id`:
    /// [`Unstake::account_error_with`] for what the pool's record derives.
    pub open spec fn account_error(self, program_id: Pubkey) -> Option<StakingError> {
        self.account_error_with(self.derived_authority(program_id))
    }
}

/// Why a withdrawal is refused when the pool's record derives `derived`, or
/// `None` if it goes through: a fault in the accounts, then a position that
/// holds less than `amount`, then whatever the transfer out of the vault
/// objects to.
pub open spec fn unstake_error_with(
    ctx: Context<Unstake>,
    amount: u64,
    derived: Option<Seq<u8>>,
) -> Option<StakingError> {
    let accounts = ctx.accounts;
    if accounts.account_error_with(derived) is Some {
        accounts.account_error_with(derived)
    } else if accounts.user_stake_account.data->0.staked_amount < amount {
        Some(StakingError::InsufficientStake)
    } else {
        transfer_error(
            accounts.staking_vault.data->0,
            accounts.user_staking_token_account.data->0,
            accounts.stake_pool.key,
            amount,
        )
    }
}

/// Why `unstake` refuses, or `None` if it goes through:
/// [`unstake_error_with`] for what the pool's record derives.
pub open spec fn unstake_error(ctx: Context<Unstake>, amount: u64) -> Option<StakingError> {
    unstake_error_with(ctx, amount, ctx.accounts.derived_authority(ctx.program_id))
}

/// The accounts after a successful `unstake`: `amount` has left the vault
/// and the position and has reached the receiving account. The position's
/// timestamp is as it was.
pub open spec fn unstake_effect(ctx: Context<Unstake>, amount: u64) -> Context<Unstake> {
    let accounts = ctx.accounts;
    let vault = accounts.staking_vault.data->0;
    let receiver = accounts.user_staking_token_account.data->0;
    let position = accounts.user_stake_account.data->0;
    Context {
        accounts: Unstake {
            staking_vault: Account {
                data: Some(vault.with_amount(vault.amount - amount)),
                ..accounts.staking_vault
            },
            user_staking_token_account: Account {
                data: Some(receiver.with_amount(receiver.amount + amount)),
                ..accounts.user_staking_token_account
            },
            user_stake_account: Account {
                data: Some(position.debited(amount)),
                ..accounts.user_stake_account
            },
            ..accounts
        },
        ..ctx
    }
}

/// Withdraws `amount` staked tokens, given the address that the pool's
/// administrator and stored bump seed derive (`None` if they derive none).
/// The pool's own address signs for the vault, and only if `derived` is
/// that address.
///
/// The call succeeds exactly when [`unstake_error_with`] finds nothing; it
/// then leaves the accounts as [`unstake_effect`] describes. Otherwise it
/// returns the error found and changes nothing. It never fails with
/// `ArithmeticUnderflow`: a withdrawal beyond the stake is already refused
/// as `InsufficientStake`, before the vault is looked at.
pub fn unstake_with_authority(ctx: &mut Context<Unstake>, amount: u64, derived: Option<Pubkey>) -> (res:
    Result<(), StakingError>)
    ensures
        match unstake_error_with(*old(ctx), amount, key_view(derived)) {
            Some(e) => res == Err::<(), StakingError>(e) && *final(ctx) == *old(ctx),
            None => res == Ok::<(), StakingError>(()) && *final(ctx) == unstake_effect(
                *old(ctx),
                amount,
            ),
        },
{
    let (mut position, pool, mut vault, mut receiver) = match (
        ctx.accounts.user_stake_account.data,
        ctx.accounts.stake_pool.data,
        ctx.accounts.staking_vault.data,
        ctx.accounts.user_staking_token_account.data,
    ) {
        (Some(position), Some(pool), Some(vault), Some(receiver)) => (position, pool, vault, receiver),
        _ => {
            return Err(StakingError::InvalidAccountOwnership);
        },
    };
    if position.user != ctx.accounts.user {
        return Err(StakingError::AuthorizationFailure);
    }
    let authority = ctx.accounts.stake_pool.key;
    if position.stake_pool != authority || ctx.accounts.staking_vault.key != pool.staking_vault
        || ctx.accounts.user_staking_token_account.key == ctx.accounts.staking_vault.key {
        return Err(StakingError::InvalidAccountRelationship);
    }
    match derived {
        Some(derived) => {
            proof {
                Pubkey::lemma_view_injective(derived, authority);
            }
            if derived != authority {
                return Err(StakingError::InvalidAccountRelationship);
            }
        },
        None => {
            return Err(StakingError::InvalidAccountRelationship);
        },
    }
    if position.staked_amount < amount {
        return Err(StakingError::InsufficientStake);
    }
    transfer(&mut vault, &mut receiver, &authority, amount)?;
    position.debit(amount)?;
    ctx.accounts.staking_vault.data = Some(vault);
    ctx.accounts.user_staking_token_account.data = Some(receiver);
    ctx.accounts.user_stake_account.data = Some(position);
    Ok(())
}

/// Withdraws `amount` staked tokens from the pool's vault to the receiving
/// account, signed by the authority that the pool's record derives.
///
/// The call succeeds exactly when [`unstake_error`] finds nothing; it then
/// leaves the accounts as [`unstake_effect`] describes. Otherwise it returns
/// the error found and changes nothing. With accounts that have no fault, a
/// withdrawal beyond the stake is refused as `InsufficientStake`, and a
/// successful one takes exactly `amount` from the position and the vault.
pub fn unstake(ctx: &mut Context<Unstake>, amount: u64) -> (res: Result<(), StakingError>)
    ensures
        match unstake_error(*old(ctx), amount) {
            Some(e) => res == Err::<(), StakingError>(e) && *final(ctx) == *old(ctx),
            None => res == Ok::<(), StakingError>(()) && *final(ctx) == unstake_effect(
                *old(ctx),
                amount,
            ),
        },
        old(ctx).accounts.account_error(old(ctx).program_id) is None
            && old(ctx).accounts.user_stake_account.data->0.staked_amount < amount ==> res == Err::<
            (),
            StakingError,
        >(StakingError::InsufficientStake),
        res is Ok ==> final(ctx).accounts.user_stake_account.data->0.staked_amount == old(
            ctx,
        ).accounts.user_stake_account.data->0.staked_amount - amount
            && final(ctx).accounts.staking_vault.data->0.amount == old(
            ctx,
        ).accounts.staking_vault.data->0.amount - amount,
{
    let derived = match ctx.accounts.stake_pool.data {
        Some(pool) => create_pool_authority(&pool.admin, pool.bump, &ctx.program_id),
        None => None,
    };
    unstake_with_authority(ctx, amount, derived)
}

} // verus!
