//! What is persisted for one escrow, and what an entry point sees of a token
//! account.

use vstd::prelude::*;
use crate::address::Address;

verus! {

/// The persisted record of one pending swap.
#[derive(Clone, Copy, Debug, PartialEq, Eq)]
pub struct EscrowAcc {
    /// Tells a live record from an unused slot.
    pub is_initialized: bool,
    /// The depositor's identity.
    pub initializer_pubkey: Address,
    /// The custody account that holds the locked asset.
    pub temp_token_acc_pubkey: Address,
    /// The account that must receive the counter-asset.
    pub initializer_token_to_receive_acc_pubkey: Address,
    /// How much of the counter-asset the depositor demands.
    pub expected_amount: u64,
}

/// A token account as an entry point reads it: where it is and what it holds.
#[derive(Clone, Copy, Debug, PartialEq, Eq)]
pub struct TokenAccount {
    /// The account's address.
    pub key: Address,
    /// The balance at the time of the call.
    pub amount: u64,
}

} // verus!
