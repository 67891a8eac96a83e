//! Creating a pool and putting its vaults under its derived authority.

use vstd::prelude::*;
use crate::authority::{
    authority_with_bump,
    find_pool_authority,
    found_view,
    pool_authority,
};
use crate::context::Context;
use crate::error::StakingError;
use crate::pubkey::Pubkey;
use crate::state::{Account, StakePool};
use crate::token::{Mint, TokenAccount};

verus! {

/// The accounts of an `initialize_stake_pool` instruction.
#[derive(Clone, Copy, Debug, PartialEq, Eq)]
pub struct InitializeStakePool {
    /// The slot for the pool's record, at the address that is the pool's
    /// derived authority.
    pub stake_pool: Account<StakePool>,
    /// The asset that users stake.
    pub staking_mint: Account<Mint>,
    /// The slot for the vault of staked tokens.
    pub staking_vault: Account<TokenAccount>,
    /// The asset in which rewards are kept.
    pub reward_mint: Account<Mint>,
    /// The slot for the vault of reward tokens.
    pub reward_vault: Account<TokenAccount>,
    /// The caller, whose signature the runtime has checked.
    pub admin: Pubkey,
}

impl InitializeStakePool {
    /// The two vault slots are fresh, the two mints exist, and no vault
    /// shares its address with the pool, the other vault or a mint.
    pub open spec fn assets_fit(self) -> bool {
        &&& self.staking_mint.data is Some
        &&& self.reward_mint.data is Some
        &&& self.staking_vault.data is None
        &&& self.reward_vault.data is None
        &&& self.staking_vault.key != self.reward_vault.key
        &&& self.staking_vault.key != self.stake_pool.key
        &&& self.reward_vault.key != self.stake_pool.key
        &&& self.staking_vault.key != self.staking_mint.key
        &&& self.staking_vault.key != self.reward_mint.key
        &&& self.reward_vault.key != self.staking_mint.key
        &&& self.reward_vault.key != self.reward_mint.key
    }
}

/// A pool with its two vaults as `initialize_stake_pool` leaves them and as
/// every later instruction keeps them: the record names the vaults, each
/// vault holds the asset that the record says and answers to the pool's
/// address alone, and that address is the authority derived from the
/// administrator and the stored bump seed, never the administrator's own.
pub open spec fn pool_in_custody(
    program_id: Pubkey,
    stake_pool: Account<StakePool>,
    staking_vault: Account<TokenAccount>,
    reward_vault: Account<TokenAccount>,
) -> bool {
    &&& stake_pool.data is Some
    &&& staking_vault.data is Some
    &&& reward_vault.data is Some
    &&& stake_pool.data->0.staking_vault == staking_vault.key
    &&& stake_pool.data->0.reward_vault == reward_vault.key
    &&& staking_vault.data->0.mint == stake_pool.data->0.staking_mint
    &&& reward_vault.data->0.mint == stake_pool.data->0.reward_mint
    &&& staking_vault.data->0.owner == stake_pool.key
    &&& reward_vault.data->0.owner == stake_pool.key
    &&& stake_pool.key != stake_pool.data->0.admin
    &&& authority_with_bump(stake_pool.data->0.admin, stake_pool.data->0.bump, program_id) == Some(
        stake_pool.key@,
    )
}

/// Why the creation of a pool is refused when the search for the
/// administrator's authority has given `found`; `None` if it goes through.
/// The first of these that applies:
///
/// - `AlreadyInitialized`: the pool's slot already holds a record.
/// - `InvalidAccountRelationship`: the slot is not at the address found,
///   nothing was found, or the address is the administrator's own.
/// - `InvalidAccountOwnership`: the mints and vault slots do not fit
///   ([`InitializeStakePool::assets_fit`]).
pub open spec fn initialize_error_with(
    ctx: Context<InitializeStakePool>,
    found: Option<(Seq<u8>, u8)>,
) -> Option<StakingError> {
    let accounts = ctx.accounts;
    if accounts.stake_pool.data is Some {
        Some(StakingError::AlreadyInitialized)
    } else if !(found matches Some((address, _)) && address == accounts.stake_pool.key@)
        || accounts.stake_pool.key == accounts.admin {
        Some(StakingError::InvalidAccountRelationship)
    } else if !accounts.assets_fit() {
        Some(StakingError::InvalidAccountOwnership)
    } else {
        None
    }
}

/// The accounts after the creation of a pool whose authority has the bump
/// seed `bump`: the pool's record is written and both vaults exist, empty,
/// in the hands of the pool's address.
pub open spec fn initialize_effect_with(ctx: Context<InitializeStakePool>, bump: u8) -> Context<
    InitializeStakePool,
> {
    let accounts = ctx.accounts;
    let authority = accounts.stake_pool.key;
    Context {
        accounts: InitializeStakePool {
            stake_pool: Account {
                data: Some(
                    StakePool {
                        staking_mint: accounts.staking_mint.key,
                        staking_vault: accounts.staking_vault.key,
                        reward_mint: accounts.reward_mint.key,
                        reward_vault: accounts.reward_vault.key,
                        admin: accounts.admin,
                        bump,
                    },
                ),
                ..accounts.stake_pool
            },
            staking_vault: Account {
                data: Some(
                    TokenAccount { mint: accounts.staking_mint.key, owner: authority, amount: 0 },
                ),
                ..accounts.staking_vault
            },
            reward_vault: Account {
                data: Some(
                    TokenAccount { mint: accounts.reward_mint.key, owner: authority, amount: 0 },
                ),
                ..accounts.reward_vault
            },
            ..accounts
        },
        ..ctx
    }
}

/// Why `initialize_stake_pool` refuses, or `None` if it goes through:
/// [`initialize_error_with`] for the authority that the administrator and
/// the program derive.
pub open spec fn initialize_error(ctx: Context<InitializeStakePool>) -> Option<StakingError> {
    initialize_error_with(ctx, pool_authority(ctx.accounts.admin, ctx.program_id))
}

/// The accounts after a successful `initialize_stake_pool`:
/// [`initialize_effect_with`] for the bump seed of the derived authority.
pub open spec fn initialize_effect(ctx: Context<InitializeStakePool>) -> Context<
    InitializeStakePool,
> {
    initialize_effect_with(ctx, pool_authority(ctx.accounts.admin, ctx.program_id).unwrap().1)
}

/// Creates a pool, given what the search for the administrator's authority
/// has found: its address and bump seed, or nothing.
///
/// The call succeeds exactly when [`initialize_error_with`] finds nothing;
/// it then leaves the accounts as [`initialize_effect_with`] describes.
/// Otherwise it returns the error found and changes nothing.
pub fn initialize_with_authority(
    ctx: &mut Context<InitializeStakePool>,
    found: Option<(Pubkey, u8)>,
) -> (res: Result<(), StakingError>)
    ensures
        match initialize_error_with(*old(ctx), found_view(found)) {
            Some(e) => res == Err::<(), StakingError>(e) && *final(ctx) == *old(ctx),
            None => res == Ok::<(), StakingError>(()) && *final(ctx) == initialize_effect_with(
                *old(ctx),
                found.unwrap().1,
            ),
        },
{
    if ctx.accounts.stake_pool.data.is_some() {
        return Err(StakingError::AlreadyInitialized);
    }
    let authority = ctx.accounts.stake_pool.key;
    let bump: u8 = match found {
        Some((derived, bump)) => {
            proof {
                Pubkey::lemma_view_injective(derived, authority);
            }
            if derived != authority {
                return Err(StakingError::InvalidAccountRelationship);
            }
            bump
        },
        None => {
            return Err(StakingError::InvalidAccountRelationship);
        },
    };
    if authority == ctx.accounts.admin {
        return Err(StakingError::InvalidAccountRelationship);
    }
    let staking_vault = ctx.accounts.staking_vault.key;
    let reward_vault = ctx.accounts.reward_vault.key;
    let staking_mint = ctx.accounts.staking_mint.key;
    let reward_mint = ctx.accounts.reward_mint.key;
    if ctx.accounts.staking_mint.data.is_none() || ctx.accounts.reward_mint.data.is_none()
        || ctx.accounts.staking_vault.data.is_some() || ctx.accounts.reward_vault.data.is_some()
        || staking_vault == reward_vault || staking_vault == authority || reward_vault == authority
        || staking_vault == staking_mint || staking_vault == reward_mint || reward_vault
        == staking_mint || reward_vault == reward_mint {
        return Err(StakingError::InvalidAccountOwnership);
    }
    ctx.accounts.stake_pool.data = Some(
        StakePool {
            staking_mint,
            staking_vault,
            reward_mint,
            reward_vault,
            admin: ctx.accounts.admin,
            bump,
        },
    );
    ctx.accounts.staking_vault.data = Some(
        TokenAccount { mint: staking_mint, owner: authority, amount: 0 },
    );
    ctx.accounts.reward_vault.data = Some(
        TokenAccount { mint: reward_mint, owner: authority, amount: 0 },
    );
    Ok(())
}

/// Creates the pool of the calling administrator: derives its authority,
/// writes its record and creates its two vaults under that authority.
///
/// The call succeeds exactly when [`initialize_error`] finds nothing; it
/// then leaves the accounts as [`initialize_effect`] describes, which puts
/// the pool in custody of its vaults. Otherwise it returns the error found
/// and changes nothing. A slot that holds a pool is never written again.
pub fn initialize_stake_pool(ctx: &mut Context<InitializeStakePool>) -> (res: Result<
    (),
    StakingError,
>)
    ensures
        match initialize_error(*old(ctx)) {
            Some(e) => res == Err::<(), StakingError>(e) && *final(ctx) == *old(ctx),
            None => res == Ok::<(), StakingError>(()) && *final(ctx) == initialize_effect(
                *old(ctx),
            ),
        },
        old(ctx).accounts.stake_pool.data is Some ==> res == Err::<(), StakingError>(
            StakingError::AlreadyInitialized,
        ),
        res is Ok ==> pool_in_custody(
            final(ctx).program_id,
            final(ctx).accounts.stake_pool,
            final(ctx).accounts.staking_vault,
            final(ctx).accounts.reward_vault,
        ),
{
    let found = find_pool_authority(&ctx.accounts.admin, &ctx.program_id);
    initialize_with_authority(ctx, found)
}

} // verus!
