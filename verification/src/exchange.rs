//! Exchange: the taker's offer is checked against the record, and a matching
//! offer is answered with the instructions that settle the trade.

use vstd::prelude::*;
use crate::address::Address;
use crate::authority::{escrow_authority, find_escrow_authority};
use crate::error::ErrorCode;
use crate::instruction::{
    AuthorityType, CpiContext, SetAuthority, SetAuthorityCall, SignerSeeds, Transfer,
    TransferCall, ESCROW_SEED,
};
use crate::state::{EscrowAcc, TokenAccount};

verus! {

/// The accounts of an exchange.
#[derive(Clone, Copy, Debug, PartialEq, Eq)]
pub struct Exchange {
    /// The taker, who signs the call.
    pub taker_acc: Address,
    /// The taker's account for the asset they send.
    pub taker_token_acc_y: TokenAccount,
    /// The taker's account for the asset they receive.
    pub taker_token_acc_x: TokenAccount,
    /// The custody account that holds the depositor's locked asset.
    pub initializer_token_acc_x: TokenAccount,
    /// The depositor's main account.
    pub initializer_main_acc: Address,
    /// The depositor's account for the asset they receive.
    pub initializer_token_acc_y: TokenAccount,
    /// The record of the escrow.
    pub escrow_acc: EscrowAcc,
    /// The token program.
    pub token_program: Address,
    /// The account of the program's derived authority.
    pub pda_acc: Address,
}

/// What a matching exchange does, in the order in which it is done. The whole
/// of it takes effect, or none of it.
#[derive(Clone, Copy, Debug, PartialEq, Eq)]
pub struct Settlement {
    /// The taker pays the depositor.
    pub to_initializer: TransferCall,
    /// The program releases the locked asset to the taker.
    pub to_taker: TransferCall,
    /// The program returns the custody account to the depositor.
    pub hand_back: SetAuthorityCall,
    /// The record is closed, and what its storage held goes to this account.
    pub refund_to: Address,
}

impl Exchange {
    /// Both amounts are the ones the trade requires: the taker's send
    /// account holds exactly what the record demands, and the taker expects
    /// exactly what is in custody.
    pub open spec fn amounts_match(self, amount_expected_by_taker: u64) -> bool {
        &&& self.escrow_acc.expected_amount == self.taker_token_acc_y.amount
        &&& amount_expected_by_taker == self.initializer_token_acc_x.amount
    }

    /// The depositor's three accounts are the ones pinned in the record.
    pub open spec fn accounts_match(self) -> bool {
        &&& self.escrow_acc.temp_token_acc_pubkey == self.initializer_token_acc_x.key
        &&& self.escrow_acc.initializer_pubkey == self.initializer_main_acc
        &&& self.escrow_acc.initializer_token_to_receive_acc_pubkey
            == self.initializer_token_acc_y.key
    }

    /// Why the offer is turned down, if it is. The amounts are judged before
    /// the accounts.
    pub open spec fn rejection(self, amount_expected_by_taker: u64) -> Option<ErrorCode> {
        if !self.amounts_match(amount_expected_by_taker) {
            Some(ErrorCode::ExpectedAmountMismatch)
        } else if !self.accounts_match() {
            Some(ErrorCode::InvalidAccount)
        } else {
            None
        }
    }

    /// The instructions that settle the trade when the taker expects
    /// `amount_expected_by_taker` and the program signs with `bump_seed`.
    pub open spec fn settlement_of(self, amount_expected_by_taker: u64, bump_seed: u8) -> Settlement {
        let signer_seeds = Some(SignerSeeds { seed: ESCROW_SEED, bump_seed });
        Settlement {
            to_initializer: TransferCall {
                ctx: CpiContext {
                    program: self.token_program,
                    accounts: Transfer {
                        from: self.taker_token_acc_y.key,
                        to: self.initializer_token_acc_y.key,
                        authority: self.taker_acc,
                    },
                    signer_seeds: None,
                },
                amount: self.escrow_acc.expected_amount,
            },
            to_taker: TransferCall {
                ctx: CpiContext {
                    program: self.token_program,
                    accounts: Transfer {
                        from: self.initializer_token_acc_x.key,
                        to: self.taker_token_acc_x.key,
                        authority: self.pda_acc,
                    },
                    signer_seeds,
                },
                amount: amount_expected_by_taker,
            },
            hand_back: SetAuthorityCall {
                ctx: CpiContext {
                    program: self.token_program,
                    accounts: SetAuthority {
                        account_or_mint: self.initializer_token_acc_x.key,
                        current_authority: self.pda_acc,
                    },
                    signer_seeds,
                },
                authority_type: AuthorityType::AccountOwner,
                new_authority: Some(self.initializer_main_acc),
            },
            refund_to: self.initializer_main_acc,
        }
    }

    /// Checks the offer against the record. The first check that fails
    /// decides the error: the taker's balance against the demanded amount,
    /// the declared amount against the custody balance, then the custody
    /// account, the depositor and the depositor's receiving account against
    /// the record.
    pub fn validate(&self, amount_expected_by_taker: u64) -> (checked: Result<(), ErrorCode>)
        ensures
            checked == match self.rejection(amount_expected_by_taker) {
                Some(code) => Err::<(), ErrorCode>(code),
                None => Ok(()),
            },
    {
        if self.escrow_acc.expected_amount != self.taker_token_acc_y.amount {
            return Err(ErrorCode::ExpectedAmountMismatch);
        }
        if amount_expected_by_taker != self.initializer_token_acc_x.amount {
            return Err(ErrorCode::ExpectedAmountMismatch);
        }
        if self.escrow_acc.temp_token_acc_pubkey != self.initializer_token_acc_x.key {
            return Err(ErrorCode::InvalidAccount);
        }
        if self.escrow_acc.initializer_pubkey != self.initializer_main_acc {
            return Err(ErrorCode::InvalidAccount);
        }
        if self.escrow_acc.initializer_token_to_receive_acc_pubkey
            != self.initializer_token_acc_y.key {
            return Err(ErrorCode::InvalidAccount);
        }
        Ok(())
    }

    /// The taker's payment: from the taker's send account to the depositor's
    /// receiving account, authorized by the taker.
    pub fn into_transfer_to_initializer(&self) -> (ctx: CpiContext<Transfer>)
        ensures
            ctx == (CpiContext {
                program: self.token_program,
                accounts: Transfer {
                    from: self.taker_token_acc_y.key,
                    to: self.initializer_token_acc_y.key,
                    authority: self.taker_acc,
                },
                signer_seeds: None,
            }),
    {
        let cpi_accounts = Transfer {
            from: self.taker_token_acc_y.key,
            to: self.initializer_token_acc_y.key,
            authority: self.taker_acc,
        };
        let cpi_program = self.token_program;
        CpiContext::new(cpi_program, cpi_accounts)
    }

    /// The release: from the custody account to the taker's receiving
    /// account, authorized by the program's derived authority. Not yet
    /// signed.
    pub fn into_transfer_to_taker(&self) -> (ctx: CpiContext<Transfer>)
        ensures
            ctx == (CpiContext {
                program: self.token_program,
                accounts: Transfer {
                    from: self.initializer_token_acc_x.key,
                    to: self.taker_token_acc_x.key,
                    authority: self.pda_acc,
                },
                signer_seeds: None,
            }),
    {
        let cpi_accounts = Transfer {
            from: self.initializer_token_acc_x.key,
            to: self.taker_token_acc_x.key,
            authority: self.pda_acc,
        };
        let cpi_program = self.token_program;
        CpiContext::new(cpi_program, cpi_accounts)
    }

    /// The hand-back: the derived authority gives up the custody account.
    /// Not yet signed.
    pub fn into_set_auth_to_initializer(&self) -> (ctx: CpiContext<SetAuthority>)
        ensures
            ctx == (CpiContext {
                program: self.token_program,
                accounts: SetAuthority {
                    account_or_mint: self.initializer_token_acc_x.key,
                    current_authority: self.pda_acc,
                },
                signer_seeds: None,
            }),
    {
        let cpi_accounts = SetAuthority {
            account_or_mint: self.initializer_token_acc_x.key,
            current_authority: self.pda_acc,
        };
        let cpi_program = self.token_program;
        CpiContext::new(cpi_program, cpi_accounts)
    }

    /// Builds the instructions that settle the trade, the program signing
    /// with the fixed seed and `bump_seed`. It checks nothing: see
    /// [`Exchange::validate`].
    pub fn settlement(&self, amount_expected_by_taker: u64, bump_seed: u8) -> (plan: Settlement)
        ensures
            plan == self.settlement_of(amount_expected_by_taker, bump_seed),
    {
        let signer_seeds = SignerSeeds { seed: ESCROW_SEED, bump_seed };
        Settlement {
            to_initializer: TransferCall {
                ctx: self.into_transfer_to_initializer(),
                amount: self.escrow_acc.expected_amount,
            },
            to_taker: TransferCall {
                ctx: self.into_transfer_to_taker().with_signer(signer_seeds),
                amount: amount_expected_by_taker,
            },
            hand_back: SetAuthorityCall {
                ctx: self.into_set_auth_to_initializer().with_signer(signer_seeds),
                authority_type: AuthorityType::AccountOwner,
                new_authority: Some(self.initializer_main_acc),
            },
            refund_to: self.initializer_main_acc,
        }
    }
}

/// What an exchange answers: the rejection, if the offer does not match the
/// record; else the settlement signed for the authority derived from
/// `program_id`; nothing where the offer matches and no authority can be
/// derived.
pub open spec fn exchange_outcome(
    program_id: Address,
    accounts: Exchange,
    amount_expected_by_taker: u64,
) -> Option<Result<Settlement, ErrorCode>> {
    match accounts.rejection(amount_expected_by_taker) {
        Some(code) => Some(Err(code)),
        None => match escrow_authority(program_id) {
            Some(authority) => Some(
                Ok(accounts.settlement_of(amount_expected_by_taker, authority.bump_seed)),
            ),
            None => None,
        },
    }
}

/// Answers a taker's offer. The offer is checked first, and a rejected offer
/// issues no instruction; only then is the program's authority derived anew
/// and the settlement built. The accounts are read, never changed.
pub fn exchange(program_id: &Address, accounts: &Exchange, amount_expected_by_taker: u64) -> (outcome:
    Option<Result<Settlement, ErrorCode>>)
    ensures
        outcome == exchange_outcome(*program_id, *accounts, amount_expected_by_taker),
{
    match accounts.validate(amount_expected_by_taker) {
        Err(code) => {
            return Some(Err(code));
        },
        Ok(()) => {},
    }
    match find_escrow_authority(program_id) {
        Some(authority) => Some(
            Ok(accounts.settlement(amount_expected_by_taker, authority.bump_seed)),
        ),
        None => None,
    }
}

} // verus!
