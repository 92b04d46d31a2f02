//! The surroundings of the two entry points, as a mathematical model: a
//! token ledger that moves balances and authorities, a store of escrow
//! records, and calls that take effect as a whole or not at all.
//!
//! Nothing here runs. The model states what the ledger and the store are
//! relied upon to do, so that what the entry points achieve can be stated
//! and proved.

use vstd::prelude::*;
use crate::address::Address;
use crate::authority::{escrow_authority, ProgramAuthority};
use crate::exchange::{exchange_outcome, Exchange, Settlement};
use crate::init::{init_escrow_outcome, InitEscrow};
use crate::instruction::{AuthorityType, SetAuthorityCall, SignerSeeds, TransferCall, ESCROW_SEED};
use crate::state::{EscrowAcc, TokenAccount};

verus! {

/// What the ledger keeps for one token account.
pub struct TokenState {
    /// Who may move the balance or pass the authority on.
    pub authority: Address,
    /// The balance.
    pub amount: u64,
}

/// The token accounts of the ledger, by address.
pub type Tokens = Map<Address, TokenState>;

/// Everything the entry points read or change.
pub struct World {
    /// The token ledger.
    pub tokens: Tokens,
    /// The live escrow records, by address. A closed record is absent.
    pub records: Map<Address, EscrowAcc>,
}

/// `authority` stands behind a call of the program `program_id`: it signed the
/// transaction, or it is the program's derived address and the call presents
/// the seeds that derive it.
pub open spec fn authorized(
    program_id: Address,
    signers: Set<Address>,
    authority: Address,
    signer_seeds: Option<SignerSeeds>,
) -> bool {
    ||| signers.contains(authority)
    ||| match signer_seeds {
        Some(seeds) => {
            &&& seeds.seed == ESCROW_SEED
            &&& escrow_authority(program_id) == Some(
                ProgramAuthority { address: authority, bump_seed: seeds.bump_seed },
            )
        },
        None => false,
    }
}

/// The ledger after `amount` moved from `from` to `to` on behalf of
/// `authority`, or `None` where the ledger refuses: an account is missing,
/// `authority` does not hold `from`, `from` holds too little or `to` would
/// hold more than a balance can.
pub open spec fn transfer(
    tokens: Tokens,
    from: Address,
    to: Address,
    authority: Address,
    amount: u64,
) -> Option<Tokens> {
    if !tokens.dom().contains(from) || !tokens.dom().contains(to) {
        None
    } else if tokens[from].authority != authority || tokens[from].amount < amount {
        None
    } else if from == to {
        Some(tokens)
    } else if tokens[to].amount + amount > u64::MAX {
        None
    } else {
        let debited = TokenState { amount: (tokens[from].amount - amount) as u64, ..tokens[from] };
        let credited = TokenState { amount: (tokens[to].amount + amount) as u64, ..tokens[to] };
        Some(tokens.insert(from, debited).insert(to, credited))
    }
}

/// The ledger after `account` passed from `current_authority` to
/// `new_authority`, or `None` where the ledger refuses: the account is
/// missing or `current_authority` does not hold it.
pub open spec fn set_owner(
    tokens: Tokens,
    account: Address,
    current_authority: Address,
    new_authority: Address,
) -> Option<Tokens> {
    if !tokens.dom().contains(account) || tokens[account].authority != current_authority {
        None
    } else {
        Some(tokens.insert(account, TokenState { authority: new_authority, ..tokens[account] }))
    }
}

/// The ledger after a transfer issued by the program `program_id` in a
/// transaction signed by `signers`.
pub open spec fn run_transfer(
    program_id: Address,
    signers: Set<Address>,
    tokens: Tokens,
    call: TransferCall,
) -> Option<Tokens> {
    let accounts = call.ctx.accounts;
    if authorized(program_id, signers, accounts.authority, call.ctx.signer_seeds) {
        transfer(tokens, accounts.from, accounts.to, accounts.authority, call.amount)
    } else {
        None
    }
}

/// The ledger after a change of an account's owner issued by the program
/// `program_id` in a transaction signed by `signers`. The model covers the
/// one kind of change that this library issues: a new owner for a token
/// account.
pub open spec fn run_set_authority(
    program_id: Address,
    signers: Set<Address>,
    tokens: Tokens,
    call: SetAuthorityCall,
) -> Option<Tokens> {
    let accounts = call.ctx.accounts;
    match call.new_authority {
        Some(new_authority) => if call.authority_type == AuthorityType::AccountOwner && authorized(
            program_id,
            signers,
            accounts.current_authority,
            call.ctx.signer_seeds,
        ) {
            set_owner(tokens, accounts.account_or_mint, accounts.current_authority, new_authority)
        } else {
            None
        },
        None => None,
    }
}

/// The ledger after the three instructions of a settlement, in their order,
/// or `None` as soon as one is refused.
pub open spec fn settle(
    program_id: Address,
    signers: Set<Address>,
    tokens: Tokens,
    plan: Settlement,
) -> Option<Tokens> {
    match run_transfer(program_id, signers, tokens, plan.to_initializer) {
        Some(paid) => match run_transfer(program_id, signers, paid, plan.to_taker) {
            Some(released) => run_set_authority(program_id, signers, released, plan.hand_back),
            None => None,
        },
        None => None,
    }
}

/// A token account as a call finds it in the ledger.
pub open spec fn token_account(tokens: Tokens, key: Address) -> TokenAccount {
    TokenAccount { key, amount: tokens[key].amount }
}

/// One call of the initiation entry point: who signed, which accounts were
/// handed in and what the depositor demands.
pub struct InitCall {
    pub signers: Set<Address>,
    pub initializer_acc: Address,
    pub temp_token_acc: Address,
    pub token_to_rx_acc: Address,
    pub escrow_acc: Address,
    /// What the fresh slot holds before the entry point writes the record.
    pub slot: EscrowAcc,
    pub token_program: Address,
    pub amount: u64,
}

impl InitCall {
    /// The call reaches the entry point: the depositor signed, both token
    /// accounts exist and the slot of the record is fresh.
    pub open spec fn admitted(self, world: World) -> bool {
        &&& self.signers.contains(self.initializer_acc)
        &&& world.tokens.dom().contains(self.temp_token_acc)
        &&& world.tokens.dom().contains(self.token_to_rx_acc)
        &&& !world.records.dom().contains(self.escrow_acc)
    }

    /// The accounts as the entry point receives them.
    pub open spec fn accounts(self, world: World) -> InitEscrow {
        InitEscrow {
            initializer_acc: self.initializer_acc,
            temp_token_acc: token_account(world.tokens, self.temp_token_acc),
            token_to_rx_acc: token_account(world.tokens, self.token_to_rx_acc),
            escrow_acc: self.slot,
            token_program: self.token_program,
        }
    }
}

/// The world after an initiation that took effect, or `None` where the call
/// was aborted: it was not admitted, no authority could be derived, or the
/// ledger refused to pass the custody account on.
pub open spec fn init_step(program_id: Address, world: World, call: InitCall) -> Option<World> {
    if !call.admitted(world) {
        None
    } else {
        match init_escrow_outcome(program_id, call.accounts(world), call.amount) {
            Some((written, issued)) => match run_set_authority(
                program_id,
                call.signers,
                world.tokens,
                issued,
            ) {
                Some(tokens) => Some(
                    World { tokens, records: world.records.insert(call.escrow_acc, written.escrow_acc) },
                ),
                None => None,
            },
            None => None,
        }
    }
}

/// One call of the exchange entry point: who signed, which accounts were
/// handed in and what the taker expects.
pub struct ExchangeCall {
    pub signers: Set<Address>,
    pub taker_acc: Address,
    pub taker_token_acc_y: Address,
    pub taker_token_acc_x: Address,
    pub initializer_token_acc_x: Address,
    pub initializer_main_acc: Address,
    pub initializer_token_acc_y: Address,
    pub escrow_acc: Address,
    pub token_program: Address,
    pub pda_acc: Address,
    pub amount_expected_by_taker: u64,
}

impl ExchangeCall {
    /// The call reaches the entry point: the taker signed, the record is
    /// live and the four token accounts exist.
    pub open spec fn admitted(self, world: World) -> bool {
        &&& self.signers.contains(self.taker_acc)
        &&& world.records.dom().contains(self.escrow_acc)
        &&& world.tokens.dom().contains(self.taker_token_acc_y)
        &&& world.tokens.dom().contains(self.taker_token_acc_x)
        &&& world.tokens.dom().contains(self.initializer_token_acc_x)
        &&& world.tokens.dom().contains(self.initializer_token_acc_y)
    }

    /// The accounts as the entry point receives them.
    pub open spec fn accounts(self, world: World) -> Exchange {
        Exchange {
            taker_acc: self.taker_acc,
            taker_token_acc_y: token_account(world.tokens, self.taker_token_acc_y),
            taker_token_acc_x: token_account(world.tokens, self.taker_token_acc_x),
            initializer_token_acc_x: token_account(world.tokens, self.initializer_token_acc_x),
            initializer_main_acc: self.initializer_main_acc,
            initializer_token_acc_y: token_account(world.tokens, self.initializer_token_acc_y),
            escrow_acc: world.records[self.escrow_acc],
            token_program: self.token_program,
            pda_acc: self.pda_acc,
        }
    }
}

/// The world after an exchange that took effect, or `None` where the call
/// was aborted: it was not admitted, the offer was rejected, no authority
/// could be derived, or the ledger refused one of the instructions.
pub open spec fn exchange_step(program_id: Address, world: World, call: ExchangeCall) -> Option<
    World,
> {
    if !call.admitted(world) {
        None
    } else {
        match exchange_outcome(program_id, call.accounts(world), call.amount_expected_by_taker) {
            Some(Ok(plan)) => match settle(program_id, call.signers, world.tokens, plan) {
                Some(tokens) => Some(World { tokens, records: world.records.remove(call.escrow_acc) }),
                None => None,
            },
            _ => None,
        }
    }
}

/// A call of either entry point.
pub enum Call {
    Init(InitCall),
    Exchange(ExchangeCall),
}

/// The world after `call`, whether it took effect or was aborted: an aborted
/// call leaves the world as it found it.
pub open spec fn after(program_id: Address, world: World, call: Call) -> World {
    let stepped = match call {
        Call::Init(init) => init_step(program_id, world, init),
        Call::Exchange(exchange) => exchange_step(program_id, world, exchange),
    };
    match stepped {
        Some(next) => next,
        None => world,
    }
}

/// The world after the calls of `calls`, one after the other.
pub open spec fn after_all(program_id: Address, world: World, calls: Seq<Call>) -> World
    decreases calls.len(),
{
    if calls.len() == 0 {
        world
    } else {
        after(program_id, after_all(program_id, world, calls.drop_last()), calls.last())
    }
}

} // verus!
