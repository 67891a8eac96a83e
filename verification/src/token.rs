//! Token accounts and the one rule by which tokens move between them.

use vstd::prelude::*;
use crate::error::StakingError;
use crate::pubkey::Pubkey;

verus! {

/// An asset type.
#[derive(Clone, Copy, Debug, PartialEq, Eq)]
pub struct Mint {
    pub supply: u64,
    pub decimals: u8,
}

/// An account that holds tokens of one asset type. Only `owner` can
/// authorize a transfer out of it.
#[derive(Clone, Copy, Debug, PartialEq, Eq)]
pub struct TokenAccount {
    pub mint: Pubkey,
    pub owner: Pubkey,
    pub amount: u64,
}

impl TokenAccount {
    /// This account with `amount` as its balance.
    pub open spec fn with_amount(self, amount: int) -> TokenAccount {
        TokenAccount { amount: amount as u64, ..self }
    }
}

/// Why a transfer of `amount` from `from` to `to`, authorized by
/// `authority`, is refused; `None` if it goes through. The checks come in
/// this order: the authority must own the source, both accounts must hold
/// the same asset, the source must hold the amount, and the destination
/// must have room for it. The order is this library's own: where two
/// faults meet, the token program that moves the real tokens may name the
/// other one.
pub open spec fn transfer_error(
    from: TokenAccount,
    to: TokenAccount,
    authority: Pubkey,
    amount: u64,
) -> Option<StakingError> {
    if from.owner != authority {
        Some(StakingError::AuthorizationFailure)
    } else if from.mint != to.mint {
        Some(StakingError::InvalidAccountRelationship)
    } else if from.amount < amount {
        Some(StakingError::InsufficientFunds)
    } else if to.amount + amount > u64::MAX {
        Some(StakingError::ArithmeticOverflow)
    } else {
        None
    }
}

/// Moves `amount` tokens from `from` to `to` on the word of `authority`.
/// Either the whole amount moves or nothing changes.
pub fn transfer(from: &mut TokenAccount, to: &mut TokenAccount, authority: &Pubkey, amount: u64) -> (res:
    Result<(), StakingError>)
    ensures
        match transfer_error(*old(from), *old(to), *authority, amount) {
            Some(e) => res == Err::<(), StakingError>(e) && *final(from) == *old(from) && *final(to)
                == *old(to),
            None => res == Ok::<(), StakingError>(()) && *final(from) == old(from).with_amount(
                old(from).amount - amount,
            ) && *final(to) == old(to).with_amount(old(to).amount + amount),
        },
{
    if from.owner != *authority {
        return Err(StakingError::AuthorizationFailure);
    }
    if from.mint != to.mint {
        return Err(StakingError::InvalidAccountRelationship);
    }
    let rest: u64 = match from.amount.checked_sub(amount) {
        Some(rest) => rest,
        None => {
            return Err(StakingError::InsufficientFunds);
        },
    };
    let sum: u64 = match to.amount.checked_add(amount) {
        Some(sum) => sum,
        None => {
            return Err(StakingError::ArithmeticOverflow);
        },
    };
    from.amount = rest;
    to.amount = sum;
    Ok(())
}

} // verus!
