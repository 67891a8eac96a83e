//! What holds of the instructions taken together.
//!
//! Each law is stated over the functions by which the handlers' contracts
//! say when they fail and what they change, so it holds of every call.

use vstd::prelude::*;
use crate::context::Context;
use crate::deposit::{stake_effect, stake_error, Stake};
use crate::error::StakingError;
use crate::pool::{initialize_effect, initialize_error, pool_in_custody, InitializeStakePool};
use crate::position::{create_effect, create_error, CreateUserStakeAccount};
use crate::pubkey::Pubkey;
use crate::state::Account;
use crate::token::{transfer_error, TokenAccount};
use crate::withdrawal::{unstake_effect, unstake_error, Unstake};

verus! {

/// The sum of a sequence of amounts.
pub open spec fn total(amounts: Seq<u64>) -> int
    decreases amounts.len(),
{
    if amounts.len() == 0 {
        0
    } else {
        amounts[0] + total(amounts.drop_first())
    }
}

/// The accounts after one `stake` for each of `amounts` in turn, the `i`-th
/// at time `times[i]`; `None` if one of the calls fails.
pub open spec fn stake_all(ctx: Context<Stake>, amounts: Seq<u64>, times: Seq<i64>) -> Option<
    Context<Stake>,
>
    decreases amounts.len(),
{
    if amounts.len() == 0 {
        Some(ctx)
    } else if stake_error(ctx, amounts[0]) is Some {
        None
    } else {
        stake_all(stake_effect(ctx, amounts[0], times[0]), amounts.drop_first(), times.drop_first())
    }
}

/// Stakes add up exactly. After any sequence of successful `stake` calls
/// the position holds what it held before plus the sum of the amounts, the
/// vault has grown by that sum and the source account has shrunk by it. On
/// a fresh position the stake is therefore the sum of the amounts.
pub proof fn lemma_stakes_add_up(ctx: Context<Stake>, amounts: Seq<u64>, times: Seq<i64>)
    requires
        amounts.len() == times.len(),
        stake_all(ctx, amounts, times) is Some,
    ensures
        ({
            let end = stake_all(ctx, amounts, times)->0.accounts;
            let start = ctx.accounts;
            &&& end.user_stake_account.data->0.staked_amount
                == start.user_stake_account.data->0.staked_amount + total(amounts)
            &&& end.staking_vault.data->0.amount == start.staking_vault.data->0.amount + total(
                amounts,
            )
            &&& end.user_staking_token_account.data->0.amount
                == start.user_staking_token_account.data->0.amount - total(amounts)
            &&& start.user_stake_account.data->0.staked_amount == 0
                ==> end.user_stake_account.data->0.staked_amount == total(amounts)
        }),
    decreases amounts.len(),
{
    if amounts.len() > 0 {
        lemma_stakes_add_up(
            stake_effect(ctx, amounts[0], times[0]),
            amounts.drop_first(),
            times.drop_first(),
        );
    }
}

/// A withdrawal within the stake succeeds. With accounts that have no
/// fault, a vault in the hands of the pool's authority that holds the same
/// asset as the receiving account and at least what the position has
/// staked, and room in the receiving account, `unstake` of any amount up to
/// the stake goes through and takes exactly that amount from the position
/// and from the vault.
pub proof fn lemma_unstake_within_stake(ctx: Context<Unstake>, amount: u64)
    requires
        ctx.accounts.account_error(ctx.program_id) is None,
        ctx.accounts.staking_vault.data->0.owner == ctx.accounts.stake_pool.key,
        ctx.accounts.staking_vault.data->0.mint
            == ctx.accounts.user_staking_token_account.data->0.mint,
        ctx.accounts.user_stake_account.data->0.staked_amount
            <= ctx.accounts.staking_vault.data->0.amount,
        ctx.accounts.user_staking_token_account.data->0.amount + amount <= u64::MAX,
        amount <= ctx.accounts.user_stake_account.data->0.staked_amount,
    ensures
        unstake_error(ctx, amount) is None,
        unstake_effect(ctx, amount).accounts.user_stake_account.data->0.staked_amount
            == ctx.accounts.user_stake_account.data->0.staked_amount - amount,
        unstake_effect(ctx, amount).accounts.staking_vault.data->0.amount
            == ctx.accounts.staking_vault.data->0.amount - amount,
{
}

/// A withdrawal beyond the stake fails. With accounts that have no fault,
/// `unstake` of more than the position holds is refused as
/// `InsufficientStake`, whatever the vault holds; like every refused
/// instruction it changes nothing.
pub proof fn lemma_unstake_beyond_stake(ctx: Context<Unstake>, amount: u64)
    requires
        ctx.accounts.account_error(ctx.program_id) is None,
        amount > ctx.accounts.user_stake_account.data->0.staked_amount,
    ensures
        unstake_error(ctx, amount) == Some(StakingError::InsufficientStake),
{
}

/// A stake that would overflow fails. With accounts that have no fault and
/// a transfer that would go through, `stake` of an amount that lifts the
/// position beyond the 64-bit range is refused as `ArithmeticOverflow`;
/// like every refused instruction it changes nothing.
pub proof fn lemma_stake_overflow(ctx: Context<Stake>, amount: u64)
    requires
        ctx.accounts.account_error() is None,
        transfer_error(
            ctx.accounts.user_staking_token_account.data->0,
            ctx.accounts.staking_vault.data->0,
            ctx.accounts.user,
            amount,
        ) is None,
        ctx.accounts.user_stake_account.data->0.staked_amount + amount > u64::MAX,
    ensures
        stake_error(ctx, amount) == Some(StakingError::ArithmeticOverflow),
{
}

/// Pools that exist side by side have different authorities. Take a pool
/// that was created, and a second creation by another administrator on the
/// ledger that the first one left: if the second names the first pool's
/// address, it finds the first pool's record there. Then, if the second
/// creation succeeds too, the two pools sit at different addresses, and so
/// their vaults answer to different authorities.
pub proof fn lemma_pools_side_by_side(
    first: Context<InitializeStakePool>,
    second: Context<InitializeStakePool>,
)
    requires
        first.accounts.admin != second.accounts.admin,
        initialize_error(first) is None,
        initialize_error(second) is None,
        second.accounts.stake_pool.key == first.accounts.stake_pool.key
            ==> second.accounts.stake_pool == initialize_effect(first).accounts.stake_pool,
    ensures
        initialize_effect(first).accounts.stake_pool.key != initialize_effect(
            second,
        ).accounts.stake_pool.key,
        initialize_effect(first).accounts.staking_vault.data->0.owner != initialize_effect(
            second,
        ).accounts.staking_vault.data->0.owner,
        initialize_effect(first).accounts.reward_vault.data->0.owner != initialize_effect(
            second,
        ).accounts.reward_vault.data->0.owner,
{
}

/// A pool is created once. Whatever a successful `initialize_stake_pool`
/// left, a second one on the same accounts is refused as
/// `AlreadyInitialized`.
pub proof fn lemma_pool_created_once(ctx: Context<InitializeStakePool>)
    requires
        initialize_error(ctx) is None,
    ensures
        initialize_error(initialize_effect(ctx)) == Some(StakingError::AlreadyInitialized),
{
}

/// A position is created once. Whatever a successful
/// `create_user_stake_account` left, a second one on the same accounts is
/// refused as `AlreadyInitialized`.
pub proof fn lemma_position_created_once(ctx: Context<CreateUserStakeAccount>)
    requires
        create_error(ctx) is None,
    ensures
        create_error(create_effect(ctx)) == Some(StakingError::AlreadyInitialized),
{
}

/// A deposit made elsewhere is never credited. With accounts that exist
/// and a position of the caller, `stake` refuses every vault but the one
/// that the record of the position's pool names as its staking vault, with
/// that pool's staking asset and in that pool's hands: the pool's reward
/// vault, an account of another asset, and an account that somebody opened
/// in the pool's name are all turned away as `InvalidAccountRelationship`,
/// whatever the amount.
pub proof fn lemma_stake_elsewhere_is_refused(ctx: Context<Stake>, amount: u64)
    requires
        ctx.accounts.user_stake_account.data is Some,
        ctx.accounts.stake_pool.data is Some,
        ctx.accounts.staking_vault.data is Some,
        ctx.accounts.user_staking_token_account.data is Some,
        ctx.accounts.user_stake_account.data->0.user == ctx.accounts.user,
        ctx.accounts.user_stake_account.data->0.stake_pool != ctx.accounts.stake_pool.key
            || ctx.accounts.staking_vault.key != ctx.accounts.stake_pool.data->0.staking_vault
            || ctx.accounts.staking_vault.data->0.mint
            != ctx.accounts.stake_pool.data->0.staking_mint
            || ctx.accounts.staking_vault.data->0.owner != ctx.accounts.stake_pool.key,
    ensures
        stake_error(ctx, amount) == Some(StakingError::InvalidAccountRelationship),
{
}

/// Staking and withdrawing leave a pool in custody of its vaults. If the
/// pool of a `stake` or of an `unstake` holds the vault of that call in
/// custody before it, it still does after a successful one, and the pool's
/// record is as it was.
pub proof fn lemma_custody_is_kept(
    deposit: Context<Stake>,
    withdrawal: Context<Unstake>,
    amount: u64,
    now: i64,
    program_id: Pubkey,
    reward_vault: Account<TokenAccount>,
)
    ensures
        stake_error(deposit, amount) is None && pool_in_custody(
            program_id,
            deposit.accounts.stake_pool,
            deposit.accounts.staking_vault,
            reward_vault,
        ) ==> pool_in_custody(
            program_id,
            stake_effect(deposit, amount, now).accounts.stake_pool,
            stake_effect(deposit, amount, now).accounts.staking_vault,
            reward_vault,
        ) && stake_effect(deposit, amount, now).accounts.stake_pool == deposit.accounts.stake_pool,
        unstake_error(withdrawal, amount) is None && pool_in_custody(
            program_id,
            withdrawal.accounts.stake_pool,
            withdrawal.accounts.staking_vault,
            reward_vault,
        ) ==> pool_in_custody(
            program_id,
            unstake_effect(withdrawal, amount).accounts.stake_pool,
            unstake_effect(withdrawal, amount).accounts.staking_vault,
            reward_vault,
        ) && unstake_effect(withdrawal, amount).accounts.stake_pool
            == withdrawal.accounts.stake_pool,
{
}

/// The pool's staking vault always covers the positions. A successful
/// `stake` or `unstake` works on the vault that the record of the
/// position's pool names as its staking vault, and on no other. If that
/// vault holds at least what this position and all others (`others`, their
/// sum) have staked, it still does afterwards: no withdrawal can take what
/// backs another position.
pub proof fn lemma_vault_covers_positions(
    deposit: Context<Stake>,
    withdrawal: Context<Unstake>,
    amount: u64,
    now: i64,
    others: nat,
)
    ensures
        stake_error(deposit, amount) is None ==> ({
            &&& deposit.accounts.user_stake_account.data->0.stake_pool
                == deposit.accounts.stake_pool.key
            &&& deposit.accounts.staking_vault.key
                == deposit.accounts.stake_pool.data->0.staking_vault
            &&& deposit.accounts.staking_vault.data->0.mint
                == deposit.accounts.stake_pool.data->0.staking_mint
            &&& deposit.accounts.staking_vault.data->0.owner == deposit.accounts.stake_pool.key
        }),
        stake_error(deposit, amount) is None
            && deposit.accounts.user_stake_account.data->0.staked_amount + others
            <= deposit.accounts.staking_vault.data->0.amount ==> ({
            let after = stake_effect(deposit, amount, now).accounts;
            after.user_stake_account.data->0.staked_amount + others
                <= after.staking_vault.data->0.amount
        }),
        unstake_error(withdrawal, amount) is None ==> ({
            &&& withdrawal.accounts.user_stake_account.data->0.stake_pool
                == withdrawal.accounts.stake_pool.key
            &&& withdrawal.accounts.staking_vault.key
                == withdrawal.accounts.stake_pool.data->0.staking_vault
            &&& withdrawal.accounts.staking_vault.data->0.owner
                == withdrawal.accounts.stake_pool.key
        }),
        unstake_error(withdrawal, amount) is None
            && withdrawal.accounts.user_stake_account.data->0.staked_amount + others
            <= withdrawal.accounts.staking_vault.data->0.amount ==> ({
            let after = unstake_effect(withdrawal, amount).accounts;
            after.user_stake_account.data->0.staked_amount + others
                <= after.staking_vault.data->0.amount
        }),
{
}

/// A pool in custody of its vaults passes the checks of `stake`: for a
/// position of the caller in that pool and a source account other than the
/// vault, the accounts have no fault.
pub proof fn lemma_pool_in_custody_can_take(ctx: Context<Stake>)
    requires
        ctx.accounts.user_stake_account.data is Some,
        ctx.accounts.user_staking_token_account.data is Some,
        ctx.accounts.user_stake_account.data->0.user == ctx.accounts.user,
        ctx.accounts.user_stake_account.data->0.stake_pool == ctx.accounts.stake_pool.key,
        ctx.accounts.user_staking_token_account.key != ctx.accounts.staking_vault.key,
        exists|reward_vault|
            pool_in_custody(
                ctx.program_id,
                ctx.accounts.stake_pool,
                ctx.accounts.staking_vault,
                reward_vault,
            ),
    ensures
        ctx.accounts.account_error() is None,
{
}

/// A pool in custody of its vaults passes the checks of `unstake` that
/// concern the pool: for a position of the caller in that pool and a
/// receiving account other than the vault, the accounts have no fault, and
/// the vault answers to the authority that signs the withdrawal.
pub proof fn lemma_pool_in_custody_can_pay(ctx: Context<Unstake>)
    requires
        ctx.accounts.user_stake_account.data is Some,
        ctx.accounts.user_staking_token_account.data is Some,
        ctx.accounts.user_stake_account.data->0.user == ctx.accounts.user,
        ctx.accounts.user_stake_account.data->0.stake_pool == ctx.accounts.stake_pool.key,
        ctx.accounts.user_staking_token_account.key != ctx.accounts.staking_vault.key,
        exists|reward_vault|
            pool_in_custody(
                ctx.program_id,
                ctx.accounts.stake_pool,
                ctx.accounts.staking_vault,
                reward_vault,
            ),
    ensures
        ctx.accounts.account_error(ctx.program_id) is None,
        ctx.accounts.staking_vault.data->0.owner == ctx.accounts.stake_pool.key,
{
}

} // verus!
