use escrow_kl::address::Address;
use escrow_kl::authority::find_escrow_authority;
use escrow_kl::error::ErrorCode;
use escrow_kl::exchange::{exchange, Exchange, Settlement};
use escrow_kl::init::{init_escrow, InitEscrow};
use escrow_kl::instruction::{
    AuthorityType, CpiContext, SetAuthority, SetAuthorityCall, SignerSeeds, Transfer, TransferCall,
};
use escrow_kl::state::{EscrowAcc, TokenAccount};

const PROGRAM: u8 = 42;
const TAKER: u8 = 10;
const TAKER_Y: u8 = 11;
const TAKER_X: u8 = 12;
const CUSTODY: u8 = 2;
const INITIATOR: u8 = 1;
const RECEIVE: u8 = 3;
const TOKEN_PROGRAM: u8 = 4;
const PDA: u8 = 20;

fn key(tag: u8) -> Address {
    Address::new([tag; 32])
}

/// The initiator has locked 100 of X and demands 50 of Y into `RECEIVE`; the
/// taker's send account holds exactly 50 of Y.
fn matching_offer() -> Exchange {
    Exchange {
        taker_acc: key(TAKER),
        taker_token_acc_y: TokenAccount { key: key(TAKER_Y), amount: 50 },
        taker_token_acc_x: TokenAccount { key: key(TAKER_X), amount: 5 },
        initializer_token_acc_x: TokenAccount { key: key(CUSTODY), amount: 100 },
        initializer_main_acc: key(INITIATOR),
        initializer_token_acc_y: TokenAccount { key: key(RECEIVE), amount: 8 },
        escrow_acc: EscrowAcc {
            is_initialized: true,
            initializer_pubkey: key(INITIATOR),
            temp_token_acc_pubkey: key(CUSTODY),
            initializer_token_to_receive_acc_pubkey: key(RECEIVE),
            expected_amount: 50,
        },
        token_program: key(TOKEN_PROGRAM),
        pda_acc: key(PDA),
    }
}

fn program_signature(bump_seed: u8) -> Option<SignerSeeds> {
    Some(SignerSeeds { seed: *b"escrow", bump_seed })
}

#[test]
fn matching_offer_passes_validation() {
    assert_eq!(matching_offer().validate(100), Ok(()));
}

#[test]
fn matching_offer_pays_the_initiator_and_releases_custody_to_the_taker() {
    let accounts = matching_offer();
    let bump_seed = find_escrow_authority(&key(PROGRAM)).unwrap().bump_seed;
    let plan = exchange(&key(PROGRAM), &accounts, 100).unwrap().unwrap();
    assert_eq!(
        plan,
        Settlement {
            to_initializer: TransferCall {
                ctx: CpiContext {
                    program: key(TOKEN_PROGRAM),
                    accounts: Transfer {
                        from: key(TAKER_Y),
                        to: key(RECEIVE),
                        authority: key(TAKER),
                    },
                    signer_seeds: None,
                },
                amount: 50,
            },
            to_taker: TransferCall {
                ctx: CpiContext {
                    program: key(TOKEN_PROGRAM),
                    accounts: Transfer {
                        from: key(CUSTODY),
                        to: key(TAKER_X),
                        authority: key(PDA),
                    },
                    signer_seeds: program_signature(bump_seed),
                },
                amount: 100,
            },
            hand_back: SetAuthorityCall {
                ctx: CpiContext {
                    program: key(TOKEN_PROGRAM),
                    accounts: SetAuthority {
                        account_or_mint: key(CUSTODY),
                        current_authority: key(PDA),
                    },
                    signer_seeds: program_signature(bump_seed),
                },
                authority_type: AuthorityType::AccountOwner,
                new_authority: Some(key(INITIATOR)),
            },
            refund_to: key(INITIATOR),
        }
    );
}

#[test]
fn settlement_moves_the_demanded_amount_and_the_whole_custody_balance() {
    let accounts = matching_offer();
    let plan = exchange(&key(PROGRAM), &accounts, 100).unwrap().unwrap();
    assert_eq!(plan.to_initializer.amount, accounts.escrow_acc.expected_amount);
    assert_eq!(plan.to_initializer.amount, accounts.taker_token_acc_y.amount);
    assert_eq!(plan.to_taker.amount, accounts.initializer_token_acc_x.amount);
    assert_eq!(plan.to_initializer.ctx.accounts.from, accounts.taker_token_acc_y.key);
    assert_eq!(plan.to_initializer.ctx.accounts.to, accounts.initializer_token_acc_y.key);
    assert_eq!(plan.to_taker.ctx.accounts.from, accounts.initializer_token_acc_x.key);
    assert_eq!(plan.to_taker.ctx.accounts.to, accounts.taker_token_acc_x.key);
}

#[test]
fn settlement_is_built_for_the_given_bump_seed() {
    let accounts = matching_offer();
    let plan = accounts.settlement(100, 253);
    assert_eq!(plan.to_initializer.ctx.signer_seeds, None);
    assert_eq!(plan.to_taker.ctx.signer_seeds, program_signature(253));
    assert_eq!(plan.hand_back.ctx.signer_seeds, program_signature(253));
    assert_eq!(plan.to_initializer.amount, 50);
    assert_eq!(plan.to_taker.amount, 100);
    assert_eq!(plan.refund_to, key(INITIATOR));
}

#[test]
fn exchange_signs_with_the_bump_seed_derived_from_the_program() {
    let accounts = matching_offer();
    let bump_seed = find_escrow_authority(&key(PROGRAM)).unwrap().bump_seed;
    let plan = exchange(&key(PROGRAM), &accounts, 100).unwrap().unwrap();
    assert_eq!(plan, accounts.settlement(100, bump_seed));
}

#[test]
fn wrong_counter_amount_is_an_amount_mismatch() {
    let accounts = matching_offer();
    assert_eq!(
        exchange(&key(PROGRAM), &accounts, 99),
        Some(Err(ErrorCode::ExpectedAmountMismatch))
    );
    assert_eq!(accounts, matching_offer());
    assert!(accounts.escrow_acc.is_initialized);
    assert!(matches!(exchange(&key(PROGRAM), &accounts, 100), Some(Ok(_))));
}

#[test]
fn substituted_custody_account_is_an_invalid_account() {
    let mut accounts = matching_offer();
    accounts.initializer_token_acc_x.key = key(77);
    let before = accounts;
    assert_eq!(exchange(&key(PROGRAM), &accounts, 100), Some(Err(ErrorCode::InvalidAccount)));
    assert_eq!(accounts, before);
}

#[test]
fn send_balance_below_the_demand_is_an_amount_mismatch() {
    let mut accounts = matching_offer();
    accounts.taker_token_acc_y.amount = 49;
    let before = accounts;
    assert_eq!(
        exchange(&key(PROGRAM), &accounts, 100),
        Some(Err(ErrorCode::ExpectedAmountMismatch))
    );
    assert_eq!(accounts, before);
}

#[test]
fn send_balance_above_the_demand_is_an_amount_mismatch() {
    let mut accounts = matching_offer();
    accounts.taker_token_acc_y.amount = 51;
    assert_eq!(accounts.validate(100), Err(ErrorCode::ExpectedAmountMismatch));
}

#[test]
fn substituted_initiator_is_an_invalid_account() {
    let mut accounts = matching_offer();
    accounts.initializer_main_acc = key(78);
    assert_eq!(accounts.validate(100), Err(ErrorCode::InvalidAccount));
}

#[test]
fn substituted_receiving_account_is_an_invalid_account() {
    let mut accounts = matching_offer();
    accounts.initializer_token_acc_y.key = key(79);
    assert_eq!(accounts.validate(100), Err(ErrorCode::InvalidAccount));
}

#[test]
fn account_differing_in_one_byte_is_an_invalid_account() {
    let mut accounts = matching_offer();
    let mut bytes = [CUSTODY; 32];
    bytes[31] ^= 1;
    accounts.initializer_token_acc_x.key = Address::new(bytes);
    assert_eq!(accounts.validate(100), Err(ErrorCode::InvalidAccount));
}

#[test]
fn amounts_are_judged_before_accounts() {
    let mut accounts = matching_offer();
    accounts.initializer_token_acc_x.key = key(77);
    accounts.initializer_main_acc = key(78);
    accounts.initializer_token_acc_y.key = key(79);
    accounts.taker_token_acc_y.amount = 49;
    assert_eq!(accounts.validate(100), Err(ErrorCode::ExpectedAmountMismatch));
    accounts.taker_token_acc_y.amount = 50;
    assert_eq!(accounts.validate(99), Err(ErrorCode::ExpectedAmountMismatch));
    assert_eq!(accounts.validate(100), Err(ErrorCode::InvalidAccount));
}

#[test]
fn accounts_the_record_does_not_pin_are_not_judged() {
    let mut accounts = matching_offer();
    accounts.taker_acc = key(90);
    accounts.taker_token_acc_x = TokenAccount { key: key(91), amount: u64::MAX };
    accounts.token_program = key(92);
    accounts.pda_acc = key(93);
    accounts.escrow_acc.is_initialized = false;
    assert_eq!(accounts.validate(100), Ok(()));
}

#[test]
fn empty_trade_is_a_match() {
    let mut accounts = matching_offer();
    accounts.escrow_acc.expected_amount = 0;
    accounts.taker_token_acc_y.amount = 0;
    accounts.initializer_token_acc_x.amount = 0;
    assert_eq!(accounts.validate(0), Ok(()));
    let plan = accounts.settlement(0, 255);
    assert_eq!(plan.to_initializer.amount, 0);
    assert_eq!(plan.to_taker.amount, 0);
}

#[test]
fn largest_amounts_are_a_match() {
    let mut accounts = matching_offer();
    accounts.escrow_acc.expected_amount = u64::MAX;
    accounts.taker_token_acc_y.amount = u64::MAX;
    accounts.initializer_token_acc_x.amount = u64::MAX;
    assert_eq!(accounts.validate(u64::MAX), Ok(()));
    assert_eq!(accounts.validate(u64::MAX - 1), Err(ErrorCode::ExpectedAmountMismatch));
}

#[test]
fn rejected_offer_can_be_retried_with_the_right_amount() {
    let accounts = matching_offer();
    let rejected = exchange(&key(PROGRAM), &accounts, 99);
    assert_eq!(rejected, Some(Err(ErrorCode::ExpectedAmountMismatch)));
    let retried = exchange(&key(PROGRAM), &accounts, 100).unwrap();
    assert!(retried.is_ok());
}

#[test]
fn payment_context_is_authorized_by_the_taker() {
    let ctx = matching_offer().into_transfer_to_initializer();
    assert_eq!(
        ctx,
        CpiContext {
            program: key(TOKEN_PROGRAM),
            accounts: Transfer { from: key(TAKER_Y), to: key(RECEIVE), authority: key(TAKER) },
            signer_seeds: None,
        }
    );
}

#[test]
fn release_context_is_authorized_by_the_derived_account() {
    let ctx = matching_offer().into_transfer_to_taker();
    assert_eq!(
        ctx,
        CpiContext {
            program: key(TOKEN_PROGRAM),
            accounts: Transfer { from: key(CUSTODY), to: key(TAKER_X), authority: key(PDA) },
            signer_seeds: None,
        }
    );
}

#[test]
fn hand_back_context_names_the_custody_account_and_the_derived_account() {
    let ctx = matching_offer().into_set_auth_to_initializer();
    assert_eq!(
        ctx,
        CpiContext {
            program: key(TOKEN_PROGRAM),
            accounts: SetAuthority { account_or_mint: key(CUSTODY), current_authority: key(PDA) },
            signer_seeds: None,
        }
    );
}

#[test]
fn with_signer_adds_the_seeds_and_keeps_the_rest() {
    let seeds = SignerSeeds { seed: *b"escrow", bump_seed: 1 };
    let plain = matching_offer().into_transfer_to_taker();
    let signed = plain.with_signer(seeds);
    assert_eq!(signed.signer_seeds, Some(seeds));
    assert_eq!(signed.program, plain.program);
    assert_eq!(signed.accounts, plain.accounts);
}

#[test]
fn new_context_is_unsigned() {
    let accounts = SetAuthority { account_or_mint: key(1), current_authority: key(2) };
    let ctx = CpiContext::new(key(3), accounts);
    assert_eq!(ctx, CpiContext { program: key(3), accounts, signer_seeds: None });
}

#[test]
fn record_written_by_initiation_is_honoured_by_exchange() {
    let program_id = key(PROGRAM);
    let mut initiation = InitEscrow {
        initializer_acc: key(INITIATOR),
        temp_token_acc: TokenAccount { key: key(CUSTODY), amount: 100 },
        token_to_rx_acc: TokenAccount { key: key(RECEIVE), amount: 8 },
        escrow_acc: EscrowAcc {
            is_initialized: false,
            initializer_pubkey: key(0),
            temp_token_acc_pubkey: key(0),
            initializer_token_to_receive_acc_pubkey: key(0),
            expected_amount: 0,
        },
        token_program: key(TOKEN_PROGRAM),
    };
    let delegated = init_escrow(&program_id, &mut initiation, 50).unwrap();
    let authority = delegated.new_authority.unwrap();
    let mut accounts = matching_offer();
    accounts.escrow_acc = initiation.escrow_acc;
    accounts.pda_acc = authority;
    let plan = exchange(&program_id, &accounts, 100).unwrap().unwrap();
    assert_eq!(plan.to_taker.ctx.accounts.authority, authority);
    assert_eq!(plan.hand_back.ctx.accounts.current_authority, authority);
    assert_eq!(plan.hand_back.new_authority, Some(key(INITIATOR)));
    assert_eq!(plan.to_initializer.ctx.accounts.to, key(RECEIVE));
    assert_eq!(plan.to_initializer.amount, 50);
    assert_eq!(plan.to_taker.amount, 100);
}

#[test]
fn invalid_account_message() {
    assert_eq!(ErrorCode::InvalidAccount.message(), "Invalid Account Data");
}

#[test]
fn expected_amount_mismatch_message() {
    assert_eq!(ErrorCode::ExpectedAmountMismatch.message(), "Expected Amount Mismatch");
}
