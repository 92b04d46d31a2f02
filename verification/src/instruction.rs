//! The token-ledger calls that the entry points issue, as plain values.

use vstd::prelude::*;
use crate::address::Address;

verus! {

/// The seed that every escrow of a program shares: the ASCII bytes of `escrow`.
pub const ESCROW_SEED: [u8; 6] = [101, 115, 99, 114, 111, 119];

/// Which authority of a token account or mint a call replaces.
#[derive(Clone, Copy, Debug, PartialEq, Eq, Structural)]
pub enum AuthorityType {
    MintTokens,
    FreezeAccount,
    AccountOwner,
    CloseAccount,
}

/// The accounts of a transfer.
#[derive(Clone, Copy, Debug, PartialEq, Eq)]
pub struct Transfer {
    /// The account debited.
    pub from: Address,
    /// The account credited.
    pub to: Address,
    /// Who authorizes the debit.
    pub authority: Address,
}

/// The accounts of a change of authority.
#[derive(Clone, Copy, Debug, PartialEq, Eq)]
pub struct SetAuthority {
    /// The account whose authority changes.
    pub account_or_mint: Address,
    /// Who holds that authority now.
    pub current_authority: Address,
}

/// The seeds by which the program signs for its derived address.
#[derive(Clone, Copy, Debug, PartialEq, Eq)]
pub struct SignerSeeds {
    /// The fixed seed.
    pub seed: [u8; 6],
    /// The bump seed found with the address.
    pub bump_seed: u8,
}

/// A call into the token program: the program, the accounts, and the seeds
/// the caller signs with, if it signs for a derived address.
#[derive(Debug, PartialEq, Eq)]
pub struct CpiContext<T> {
    /// The token program called.
    pub program: Address,
    /// The accounts handed to it.
    pub accounts: T,
    /// Present when the call is signed for the program's derived address.
    pub signer_seeds: Option<SignerSeeds>,
}

impl<T: Copy> Clone for CpiContext<T> {
    fn clone(&self) -> (copy: CpiContext<T>)
        ensures
            copy == *self,
    {
        *self
    }
}

impl<T: Copy> Copy for CpiContext<T> {}

impl<T> CpiContext<T> {
    /// A call that carries no program signature.
    pub fn new(program: Address, accounts: T) -> (ctx: CpiContext<T>)
        ensures
            ctx == (CpiContext { program, accounts, signer_seeds: None }),
    {
        CpiContext { program, accounts, signer_seeds: None }
    }

    /// The same call, signed with `signer_seeds`.
    pub fn with_signer(self, signer_seeds: SignerSeeds) -> (ctx: CpiContext<T>)
        ensures
            ctx == (CpiContext { signer_seeds: Some(signer_seeds), ..self }),
    {
        CpiContext { program: self.program, accounts: self.accounts, signer_seeds: Some(signer_seeds) }
    }
}

/// A transfer to be performed by the token ledger.
#[derive(Clone, Copy, Debug, PartialEq, Eq)]
pub struct TransferCall {
    pub ctx: CpiContext<Transfer>,
    /// How much moves.
    pub amount: u64,
}

/// A change of authority to be performed by the token ledger.
#[derive(Clone, Copy, Debug, PartialEq, Eq)]
pub struct SetAuthorityCall {
    pub ctx: CpiContext<SetAuthority>,
    /// Which authority is replaced.
    pub authority_type: AuthorityType,
    /// Who holds it afterwards.
    pub new_authority: Option<Address>,
}

} // verus!
