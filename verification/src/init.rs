//! Initiation: the depositor's record is written and custody of the locked
//! asset passes to the program's derived authority.

use vstd::prelude::*;
use vstd::std_specs::convert::FromSpecImpl;
use crate::address::Address;
use crate::authority::{escrow_authority, find_escrow_authority};
use crate::instruction::{AuthorityType, CpiContext, SetAuthority, SetAuthorityCall};
use crate::state::{EscrowAcc, TokenAccount};

verus! {

/// The accounts of an initiation.
#[derive(Clone, Copy, Debug, PartialEq, Eq)]
pub struct InitEscrow {
    /// The depositor, who signs the call.
    pub initializer_acc: Address,
    /// The custody account: it already holds the asset to lock and the
    /// depositor still owns it.
    pub temp_token_acc: TokenAccount,
    /// The depositor's account for the counter-asset.
    pub token_to_rx_acc: TokenAccount,
    /// The freshly allocated slot of the record.
    pub escrow_acc: EscrowAcc,
    /// The token program.
    pub token_program: Address,
}

impl InitEscrow {
    /// The record that an initiation with these accounts writes when the
    /// depositor demands `amount`.
    pub open spec fn record(self, amount: u64) -> EscrowAcc {
        EscrowAcc {
            is_initialized: true,
            initializer_pubkey: self.initializer_acc,
            temp_token_acc_pubkey: self.temp_token_acc.key,
            initializer_token_to_receive_acc_pubkey: self.token_to_rx_acc.key,
            expected_amount: amount,
        }
    }

    /// The call that hands the custody account from the depositor to
    /// `authority`.
    pub open spec fn delegation(self, authority: Address) -> SetAuthorityCall {
        SetAuthorityCall {
            ctx: CpiContext {
                program: self.token_program,
                accounts: SetAuthority {
                    account_or_mint: self.temp_token_acc.key,
                    current_authority: self.initializer_acc,
                },
                signer_seeds: None,
            },
            authority_type: AuthorityType::AccountOwner,
            new_authority: Some(authority),
        }
    }

    /// These accounts once the record for `amount` is written: the record
    /// slot is filled, everything else is as before.
    pub open spec fn recorded(self, amount: u64) -> InitEscrow {
        InitEscrow { escrow_acc: self.record(amount), ..self }
    }

    /// Writes the record for a demand of `amount` and returns the call that
    /// places the custody account under `authority`.
    pub fn lock(&mut self, amount: u64, authority: &Address) -> (call: SetAuthorityCall)
        ensures
            *final(self) == old(self).recorded(amount),
            call == old(self).delegation(*authority),
    {
        self.escrow_acc.is_initialized = true;
        self.escrow_acc.initializer_pubkey = self.initializer_acc;
        self.escrow_acc.temp_token_acc_pubkey = self.temp_token_acc.key;
        self.escrow_acc.initializer_token_to_receive_acc_pubkey = self.token_to_rx_acc.key;
        self.escrow_acc.expected_amount = amount;
        let ctx: CpiContext<SetAuthority> = CpiContext::from(&*self);
        SetAuthorityCall {
            ctx,
            authority_type: AuthorityType::AccountOwner,
            new_authority: Some(*authority),
        }
    }
}

impl<'a> From<&'a InitEscrow> for CpiContext<SetAuthority> {
    /// The depositor changes the authority of the custody account.
    fn from(accounts: &'a InitEscrow) -> (ctx: CpiContext<SetAuthority>) {
        let cpi_accounts = SetAuthority {
            account_or_mint: accounts.temp_token_acc.key,
            current_authority: accounts.initializer_acc,
        };
        let cpi_program = accounts.token_program;
        CpiContext::new(cpi_program, cpi_accounts)
    }
}

impl<'a> FromSpecImpl<&'a InitEscrow> for CpiContext<SetAuthority> {
    open spec fn obeys_from_spec() -> bool {
        true
    }

    open spec fn from_spec(accounts: &'a InitEscrow) -> CpiContext<SetAuthority> {
        CpiContext {
            program: accounts.token_program,
            accounts: SetAuthority {
                account_or_mint: accounts.temp_token_acc.key,
                current_authority: accounts.initializer_acc,
            },
            signer_seeds: None,
        }
    }
}

/// What an initiation does: the accounts with the record written and the
/// call that places the custody account under the authority derived from
/// `program_id`; nothing where no authority can be derived.
pub open spec fn init_escrow_outcome(program_id: Address, accounts: InitEscrow, amount: u64) -> Option<
    (InitEscrow, SetAuthorityCall),
> {
    match escrow_authority(program_id) {
        Some(authority) => Some((accounts.recorded(amount), accounts.delegation(authority.address))),
        None => None,
    }
}

/// Opens an escrow: derives the program's authority, writes the record for a
/// demand of `amount` and returns the call that places the custody account
/// under that authority.
///
/// Where no authority can be derived for `program_id`, nothing is written and
/// no call is returned.
pub fn init_escrow(program_id: &Address, accounts: &mut InitEscrow, amount: u64) -> (call: Option<
    SetAuthorityCall,
>)
    ensures
        match init_escrow_outcome(*program_id, *old(accounts), amount) {
            Some((written, issued)) => {
                &&& *final(accounts) == written
                &&& call == Some(issued)
            },
            None => {
                &&& *final(accounts) == *old(accounts)
                &&& call is None
            },
        },
{
    match find_escrow_authority(program_id) {
        Some(authority) => Some(accounts.lock(amount, &authority.address)),
        None => None,
    }
}

} // verus!
