//! Custodial staking on a key-addressed ledger.
//!
//! Users lock tokens in a vault that only a pool's derived authority can
//! debit, and reclaim them later. Every instruction handler is a total
//! function from the accounts it is handed to either their new state or a
//! [`StakingError`], and leaves the accounts untouched when it fails.

pub mod authority;
pub mod context;
pub mod deposit;
pub mod error;
pub mod laws;
pub mod pool;
pub mod position;
pub mod pubkey;
pub mod state;
pub mod token;
pub mod withdrawal;

pub use crate::context::Context;
pub use crate::deposit::{stake, Stake};
pub use crate::error::StakingError;
pub use crate::pool::{initialize_stake_pool, initialize_with_authority, InitializeStakePool};
pub use crate::position::{create_user_stake_account, CreateUserStakeAccount};
pub use crate::pubkey::Pubkey;
pub use crate::state::{Account, StakePool, UserStakeAccount};
pub use crate::token::{Mint, TokenAccount};
pub use crate::withdrawal::{unstake, unstake_with_authority, Unstake};
