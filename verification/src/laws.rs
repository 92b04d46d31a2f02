//! What the two entry points achieve together with the ledger and the
//! record store of [`crate::ledger`].

use vstd::prelude::*;
use crate::address::Address;
use crate::authority::escrow_authority;
use crate::error::ErrorCode;
use crate::exchange::{exchange_outcome, Exchange, Settlement};
use crate::ledger::{
    after, after_all, exchange_step, init_step, set_owner, settle, transfer, Call, ExchangeCall,
    InitCall, TokenState, World,
};
use crate::state::EscrowAcc;

verus! {

/// An exchange takes effect as a whole or not at all. A call that is not
/// admitted, whose offer is rejected or of which the ledger refuses an
/// instruction does not take effect, and a call that does not take effect
/// leaves the records and every balance and authority as they were.
pub proof fn lemma_exchange_is_atomic(program_id: Address, world: World, call: ExchangeCall)
    ensures
        !call.admitted(world) ==> exchange_step(program_id, world, call) is None,
        call.accounts(world).rejection(call.amount_expected_by_taker) is Some ==> exchange_step(
            program_id,
            world,
            call,
        ) is None,
        forall|plan: Settlement|
            exchange_outcome(program_id, call.accounts(world), call.amount_expected_by_taker)
                == Some(Ok::<Settlement, ErrorCode>(plan)) && settle(
                program_id,
                call.signers,
                world.tokens,
                plan,
            ) is None ==> exchange_step(program_id, world, call) is None,
        exchange_step(program_id, world, call) is None ==> after(
            program_id,
            world,
            Call::Exchange(call),
        ) == world,
{
}

/// `call` does not open a record at `slot`.
pub open spec fn leaves_closed(call: Call, slot: Address) -> bool {
    match call {
        Call::Init(init) => init.escrow_acc != slot,
        Call::Exchange(_) => true,
    }
}

/// A record that is closed stays closed until an initiation opens its slot
/// again.
pub proof fn lemma_closed_stays_closed(
    program_id: Address,
    world: World,
    calls: Seq<Call>,
    slot: Address,
)
    requires
        !world.records.dom().contains(slot),
        forall|i: int| 0 <= i < calls.len() ==> leaves_closed(#[trigger] calls[i], slot),
    ensures
        !after_all(program_id, world, calls).records.dom().contains(slot),
    decreases calls.len(),
{
    if calls.len() > 0 {
        let earlier = calls.drop_last();
        assert forall|i: int| 0 <= i < earlier.len() implies leaves_closed(
            #[trigger] earlier[i],
            slot,
        ) by {
            assert(earlier[i] == calls[i]);
        }
        lemma_closed_stays_closed(program_id, world, earlier, slot);
        assert(leaves_closed(calls[calls.len() - 1], slot));
    }
}

/// At most one exchange succeeds against a record. Once an exchange against
/// the record at `first.escrow_acc` has taken effect, every later exchange
/// against that record is aborted, whatever calls came between, as long as
/// none of them opened a new record in the same slot.
pub proof fn lemma_single_consumption(
    program_id: Address,
    world: World,
    first: ExchangeCall,
    between: Seq<Call>,
    second: ExchangeCall,
)
    requires
        exchange_step(program_id, world, first) is Some,
        second.escrow_acc == first.escrow_acc,
        forall|i: int|
            0 <= i < between.len() ==> leaves_closed(#[trigger] between[i], first.escrow_acc),
    ensures
        exchange_step(
            program_id,
            after_all(program_id, exchange_step(program_id, world, first).unwrap(), between),
            second,
        ) is None,
{
    let closed = exchange_step(program_id, world, first).unwrap();
    lemma_closed_stays_closed(program_id, closed, between, first.escrow_acc);
}

/// After an initiation, the custody account answers to the derived authority
/// alone: the ledger passes it on, or moves anything out of it, for no other
/// authority than the address derived from the program's identity.
pub proof fn lemma_custody_answers_to_derived_authority(
    program_id: Address,
    world: World,
    call: InitCall,
    to: Address,
    authority: Address,
    amount: u64,
)
    requires
        init_step(program_id, world, call) is Some,
    ensures
        escrow_authority(program_id) is Some,
        init_step(program_id, world, call).unwrap().tokens[call.temp_token_acc].authority
            == escrow_authority(program_id).unwrap().address,
        transfer(
            init_step(program_id, world, call).unwrap().tokens,
            call.temp_token_acc,
            to,
            authority,
            amount,
        ) is Some ==> authority == escrow_authority(program_id).unwrap().address,
        set_owner(
            init_step(program_id, world, call).unwrap().tokens,
            call.temp_token_acc,
            authority,
            to,
        ) is Some ==> authority == escrow_authority(program_id).unwrap().address,
{
}

/// What an exchange takes out of the token account `key`.
pub open spec fn debit(world: World, call: ExchangeCall, key: Address) -> int {
    (if key == call.taker_token_acc_y {
        world.records[call.escrow_acc].expected_amount as int
    } else {
        0
    }) + (if key == call.initializer_token_acc_x {
        call.amount_expected_by_taker as int
    } else {
        0
    })
}

/// What an exchange puts into the token account `key`.
pub open spec fn credit(world: World, call: ExchangeCall, key: Address) -> int {
    (if key == call.initializer_token_acc_y {
        world.records[call.escrow_acc].expected_amount as int
    } else {
        0
    }) + (if key == call.taker_token_acc_x {
        call.amount_expected_by_taker as int
    } else {
        0
    })
}

/// An exchange that takes effect moves exactly the two amounts of the trade:
/// every token account ends with what it held, less what the exchange took
/// out of it, plus what the exchange put into it. The custody account goes
/// back to the depositor, no other authority changes, the record is closed
/// and no other record is touched.
pub proof fn lemma_conservation(program_id: Address, world: World, call: ExchangeCall, key: Address)
    requires
        exchange_step(program_id, world, call) is Some,
    ensures
        ({
            let next = exchange_step(program_id, world, call).unwrap();
            &&& next.tokens.dom() == world.tokens.dom()
            &&& world.tokens.dom().contains(key) ==> next.tokens[key].amount == world.tokens[key].amount
                - debit(world, call, key) + credit(world, call, key)
            &&& world.tokens.dom().contains(key) ==> next.tokens[key].authority == if key
                == call.initializer_token_acc_x {
                call.initializer_main_acc
            } else {
                world.tokens[key].authority
            }
            &&& next.records == world.records.remove(call.escrow_acc)
        }),
{
    let accounts = call.accounts(world);
    let paid = transfer(
        world.tokens,
        call.taker_token_acc_y,
        call.initializer_token_acc_y,
        call.taker_acc,
        accounts.escrow_acc.expected_amount,
    ).unwrap();
    let released = transfer(
        paid,
        call.initializer_token_acc_x,
        call.taker_token_acc_x,
        call.pda_acc,
        call.amount_expected_by_taker,
    ).unwrap();
    let next = exchange_step(program_id, world, call).unwrap();
    assert(paid.dom() =~= world.tokens.dom());
    assert(released.dom() =~= world.tokens.dom());
    assert(next.tokens.dom() =~= world.tokens.dom());
}

/// With four different token accounts, an exchange that takes effect lowers
/// the taker's send account by the demanded amount and raises the
/// depositor's receiving account by it, empties the custody account and
/// raises the taker's receiving account by what the custody account held.
pub proof fn lemma_balances_after_exchange(program_id: Address, world: World, call: ExchangeCall)
    requires
        exchange_step(program_id, world, call) is Some,
        call.taker_token_acc_y != call.initializer_token_acc_y,
        call.taker_token_acc_y != call.initializer_token_acc_x,
        call.taker_token_acc_y != call.taker_token_acc_x,
        call.initializer_token_acc_y != call.initializer_token_acc_x,
        call.initializer_token_acc_y != call.taker_token_acc_x,
        call.initializer_token_acc_x != call.taker_token_acc_x,
    ensures
        ({
            let next = exchange_step(program_id, world, call).unwrap().tokens;
            let expected_amount = world.records[call.escrow_acc].expected_amount;
            let counter_amount = call.amount_expected_by_taker;
            &&& next[call.taker_token_acc_y].amount == world.tokens[call.taker_token_acc_y].amount
                - expected_amount
            &&& next[call.initializer_token_acc_y].amount
                == world.tokens[call.initializer_token_acc_y].amount + expected_amount
            &&& next[call.initializer_token_acc_x].amount
                == world.tokens[call.initializer_token_acc_x].amount - counter_amount
            &&& next[call.initializer_token_acc_x].amount == 0
            &&& next[call.taker_token_acc_x].amount == world.tokens[call.taker_token_acc_x].amount
                + counter_amount
        }),
{
    lemma_conservation(program_id, world, call, call.taker_token_acc_y);
    lemma_conservation(program_id, world, call, call.initializer_token_acc_y);
    lemma_conservation(program_id, world, call, call.initializer_token_acc_x);
    lemma_conservation(program_id, world, call, call.taker_token_acc_x);
}

/// The taker's balance is judged before anything else: an offer whose send
/// account does not hold exactly the demanded amount is rejected for its
/// amount, whatever else is wrong with it, and the call changes nothing.
pub proof fn lemma_amount_is_judged_first(
    program_id: Address,
    accounts: Exchange,
    amount_expected_by_taker: u64,
)
    requires
        accounts.escrow_acc.expected_amount != accounts.taker_token_acc_y.amount,
    ensures
        exchange_outcome(program_id, accounts, amount_expected_by_taker) == Some(
            Err::<Settlement, ErrorCode>(ErrorCode::ExpectedAmountMismatch),
        ),
        forall|world: World, call: ExchangeCall|
            call.accounts(world) == accounts && call.amount_expected_by_taker
                == amount_expected_by_taker ==> #[trigger] after(
                program_id,
                world,
                Call::Exchange(call),
            ) == world,
{
}

/// An initiation takes effect exactly when the call is admitted, an
/// authority can be derived and the depositor holds the custody account. It
/// then stores the record as given and passes the custody account, balance
/// untouched, to the derived authority; nothing else changes.
pub proof fn lemma_initiation_takes_effect(program_id: Address, world: World, call: InitCall)
    ensures
        init_step(program_id, world, call) is Some <==> {
            &&& call.admitted(world)
            &&& escrow_authority(program_id) is Some
            &&& world.tokens[call.temp_token_acc].authority == call.initializer_acc
        },
        init_step(program_id, world, call) is Some ==> init_step(program_id, world, call) == Some(
            World {
                tokens: world.tokens.insert(
                    call.temp_token_acc,
                    TokenState {
                        authority: escrow_authority(program_id).unwrap().address,
                        amount: world.tokens[call.temp_token_acc].amount,
                    },
                ),
                records: world.records.insert(
                    call.escrow_acc,
                    EscrowAcc {
                        is_initialized: true,
                        initializer_pubkey: call.initializer_acc,
                        temp_token_acc_pubkey: call.temp_token_acc,
                        initializer_token_to_receive_acc_pubkey: call.token_to_rx_acc,
                        expected_amount: call.amount,
                    },
                ),
            },
        ),
{
}

/// The token accounts of an exchange are four different accounts.
pub open spec fn four_accounts(call: ExchangeCall) -> bool {
    &&& call.taker_token_acc_y != call.initializer_token_acc_y
    &&& call.taker_token_acc_y != call.initializer_token_acc_x
    &&& call.taker_token_acc_y != call.taker_token_acc_x
    &&& call.initializer_token_acc_y != call.initializer_token_acc_x
    &&& call.initializer_token_acc_y != call.taker_token_acc_x
    &&& call.initializer_token_acc_x != call.taker_token_acc_x
}

/// A matching offer is settled. Where the call is admitted and the offer
/// matches the record, the taker holds the send account, the account handed in
/// as the program's authority is the derived address and holds the custody
/// account, the four token accounts differ and both receiving accounts can
/// take what they are due, the exchange takes effect.
pub proof fn lemma_matching_offer_settles(program_id: Address, world: World, call: ExchangeCall)
    requires
        call.admitted(world),
        call.accounts(world).rejection(call.amount_expected_by_taker) is None,
        escrow_authority(program_id) is Some,
        call.pda_acc == escrow_authority(program_id).unwrap().address,
        world.tokens[call.taker_token_acc_y].authority == call.taker_acc,
        world.tokens[call.initializer_token_acc_x].authority == call.pda_acc,
        four_accounts(call),
        world.tokens[call.initializer_token_acc_y].amount
            + world.records[call.escrow_acc].expected_amount <= u64::MAX,
        world.tokens[call.taker_token_acc_x].amount + call.amount_expected_by_taker <= u64::MAX,
    ensures
        exchange_step(program_id, world, call) is Some,
{
    let accounts = call.accounts(world);
    let paid = transfer(
        world.tokens,
        call.taker_token_acc_y,
        call.initializer_token_acc_y,
        call.taker_acc,
        accounts.escrow_acc.expected_amount,
    );
    assert(paid is Some);
    let released = transfer(
        paid.unwrap(),
        call.initializer_token_acc_x,
        call.taker_token_acc_x,
        call.pda_acc,
        call.amount_expected_by_taker,
    );
    assert(released is Some);
}

/// A swap runs to its end. The depositor opens an escrow over a custody
/// account they hold; a taker whose send account holds exactly the demanded
/// amount then offers it and expects exactly what is in custody. Both calls
/// take effect: the depositor's receiving account gains the demanded amount,
/// the taker's receiving account gains what was locked, the taker's send
/// account and the custody account are empty, the custody account is the
/// depositor's again and the record is closed.
pub proof fn lemma_swap_completes(
    program_id: Address,
    world: World,
    opening: InitCall,
    taking: ExchangeCall,
)
    requires
        opening.admitted(world),
        escrow_authority(program_id) is Some,
        world.tokens[opening.temp_token_acc].authority == opening.initializer_acc,
        taking.escrow_acc == opening.escrow_acc,
        taking.initializer_token_acc_x == opening.temp_token_acc,
        taking.initializer_main_acc == opening.initializer_acc,
        taking.initializer_token_acc_y == opening.token_to_rx_acc,
        taking.pda_acc == escrow_authority(program_id).unwrap().address,
        taking.signers.contains(taking.taker_acc),
        world.tokens.dom().contains(taking.taker_token_acc_y),
        world.tokens.dom().contains(taking.taker_token_acc_x),
        world.tokens[taking.taker_token_acc_y].authority == taking.taker_acc,
        world.tokens[taking.taker_token_acc_y].amount == opening.amount,
        taking.amount_expected_by_taker == world.tokens[opening.temp_token_acc].amount,
        four_accounts(taking),
        world.tokens[opening.token_to_rx_acc].amount + opening.amount <= u64::MAX,
        world.tokens[taking.taker_token_acc_x].amount + world.tokens[opening.temp_token_acc].amount
            <= u64::MAX,
    ensures
        init_step(program_id, world, opening) is Some,
        exchange_step(program_id, init_step(program_id, world, opening).unwrap(), taking) is Some,
        ({
            let done = exchange_step(
                program_id,
                init_step(program_id, world, opening).unwrap(),
                taking,
            ).unwrap();
            &&& done.tokens[opening.token_to_rx_acc].amount
                == world.tokens[opening.token_to_rx_acc].amount + opening.amount
            &&& done.tokens[taking.taker_token_acc_x].amount
                == world.tokens[taking.taker_token_acc_x].amount
                + world.tokens[opening.temp_token_acc].amount
            &&& done.tokens[taking.taker_token_acc_y].amount == 0
            &&& done.tokens[opening.temp_token_acc].amount == 0
            &&& done.tokens[opening.temp_token_acc].authority == opening.initializer_acc
            &&& !done.records.dom().contains(opening.escrow_acc)
        }),
{
    lemma_initiation_takes_effect(program_id, world, opening);
    let locked = init_step(program_id, world, opening).unwrap();
    lemma_matching_offer_settles(program_id, locked, taking);
    lemma_balances_after_exchange(program_id, locked, taking);
    lemma_conservation(program_id, locked, taking, opening.temp_token_acc);
}

/// A record is written once and read ever after: a call changes no record
/// that is live before it and after it.
pub proof fn lemma_record_is_immutable(program_id: Address, world: World, call: Call, slot: Address)
    requires
        world.records.dom().contains(slot),
        after(program_id, world, call).records.dom().contains(slot),
    ensures
        after(program_id, world, call).records[slot] == world.records[slot],
{
}

/// Who signed the transaction of `call`.
pub open spec fn signers_of(call: Call) -> Set<Address> {
    match call {
        Call::Init(init) => init.signers,
        Call::Exchange(exchange) => exchange.signers,
    }
}

/// No key signs for the derived authority: it is not among the signers of
/// `call`.
pub open spec fn unsigned_by_authority(program_id: Address, call: Call) -> bool {
    match escrow_authority(program_id) {
        Some(authority) => !signers_of(call).contains(authority.address),
        None => true,
    }
}

/// Every live record has its custody account under the derived authority,
/// and no two live records share a custody account.
pub open spec fn custody_secured(program_id: Address, world: World) -> bool {
    &&& forall|slot: Address| #[trigger]
        world.records.dom().contains(slot) ==> {
            let custody = world.records[slot].temp_token_acc_pubkey;
            &&& world.tokens.dom().contains(custody)
            &&& Some(world.tokens[custody].authority) == match escrow_authority(program_id) {
                Some(authority) => Some(authority.address),
                None => None,
            }
        }
    &&& forall|one: Address, other: Address|
        #![trigger world.records.dom().contains(one), world.records.dom().contains(other)]
        world.records.dom().contains(one) && world.records.dom().contains(other) && one != other
            ==> world.records[one].temp_token_acc_pubkey
            != world.records[other].temp_token_acc_pubkey
}

/// A call that the derived authority did not sign keeps every custody account
/// secured.
pub proof fn lemma_call_keeps_custody_secured(program_id: Address, world: World, call: Call)
    requires
        custody_secured(program_id, world),
        unsigned_by_authority(program_id, call),
    ensures
        custody_secured(program_id, after(program_id, world, call)),
{
    let next = after(program_id, world, call);
    match call {
        Call::Init(init) => {
            if init_step(program_id, world, init) is Some {
                lemma_initiation_takes_effect(program_id, world, init);
            }
        },
        Call::Exchange(exchange) => {
            if exchange_step(program_id, world, exchange) is Some {
                assert forall|slot: Address| #[trigger]
                    next.records.dom().contains(slot) implies {
                    let custody = next.records[slot].temp_token_acc_pubkey;
                    &&& next.tokens.dom().contains(custody)
                    &&& Some(next.tokens[custody].authority) == match escrow_authority(
                        program_id,
                    ) {
                        Some(authority) => Some(authority.address),
                        None => None,
                    }
                } by {
                    lemma_conservation(
                        program_id,
                        world,
                        exchange,
                        world.records[slot].temp_token_acc_pubkey,
                    );
                }
            }
        },
    }
}

/// Between initiation and exchange the custody account answers to the
/// derived authority alone. Starting from a world in which every custody
/// account is secured (one without records, for a start), after any calls
/// that the derived authority did not sign, the ledger moves nothing out of
/// the custody account of a live record, and passes it on, for no other
/// authority than the derived one.
pub proof fn lemma_custody_is_held_until_exchange(
    program_id: Address,
    world: World,
    calls: Seq<Call>,
    slot: Address,
    to: Address,
    authority: Address,
    amount: u64,
)
    requires
        custody_secured(program_id, world),
        forall|i: int| 0 <= i < calls.len() ==> unsigned_by_authority(program_id, #[trigger] calls[i]),
        after_all(program_id, world, calls).records.dom().contains(slot),
    ensures
        custody_secured(program_id, after_all(program_id, world, calls)),
        escrow_authority(program_id) is Some,
        ({
            let now = after_all(program_id, world, calls);
            let custody = now.records[slot].temp_token_acc_pubkey;
            &&& now.tokens[custody].authority == escrow_authority(program_id).unwrap().address
            &&& transfer(now.tokens, custody, to, authority, amount) is Some ==> authority
                == escrow_authority(program_id).unwrap().address
            &&& set_owner(now.tokens, custody, authority, to) is Some ==> authority
                == escrow_authority(program_id).unwrap().address
        }),
{
    lemma_calls_keep_custody_secured(program_id, world, calls);
}

/// Calls that the derived authority did not sign keep every custody account
/// secured.
pub proof fn lemma_calls_keep_custody_secured(program_id: Address, world: World, calls: Seq<Call>)
    requires
        custody_secured(program_id, world),
        forall|i: int| 0 <= i < calls.len() ==> unsigned_by_authority(program_id, #[trigger] calls[i]),
    ensures
        custody_secured(program_id, after_all(program_id, world, calls)),
    decreases calls.len(),
{
    if calls.len() > 0 {
        let earlier = calls.drop_last();
        assert forall|i: int| 0 <= i < earlier.len() implies unsigned_by_authority(
            program_id,
            #[trigger] earlier[i],
        ) by {
            assert(earlier[i] == calls[i]);
        }
        lemma_calls_keep_custody_secured(program_id, world, earlier);
        assert(unsigned_by_authority(program_id, calls[calls.len() - 1]));
        lemma_call_keeps_custody_secured(
            program_id,
            after_all(program_id, world, earlier),
            calls.last(),
        );
    }
}

} // verus!
