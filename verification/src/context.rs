//! What the runtime hands to an instruction handler.

use vstd::prelude::*;
use crate::pubkey::Pubkey;

verus! {

/// The accounts that an instruction names, loaded by the runtime, together
/// with the address of the program that runs the handler. The handler
/// changes the accounts in place; the runtime stores them if it succeeds.
#[derive(Debug, PartialEq, Eq)]
pub struct Context<T> {
    pub program_id: Pubkey,
    pub accounts: T,
}

impl<T: Copy> Clone for Context<T> {
    fn clone(&self) -> (copy: Self)
        ensures
            copy == *self,
    {
        *self
    }
}

impl<T: Copy> Copy for Context<T> {

}

} // verus!
