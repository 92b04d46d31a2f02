use escrow_kl::address::Address;
use escrow_kl::authority::find_escrow_authority;
use escrow_kl::init::{init_escrow, InitEscrow};
use escrow_kl::instruction::{AuthorityType, CpiContext, SetAuthority, SetAuthorityCall};
use escrow_kl::state::{EscrowAcc, TokenAccount};

fn key(tag: u8) -> Address {
    Address::new([tag; 32])
}

fn fresh_slot() -> EscrowAcc {
    EscrowAcc {
        is_initialized: false,
        initializer_pubkey: key(0),
        temp_token_acc_pubkey: key(0),
        initializer_token_to_receive_acc_pubkey: key(0),
        expected_amount: 0,
    }
}

fn initiation() -> InitEscrow {
    InitEscrow {
        initializer_acc: key(1),
        temp_token_acc: TokenAccount { key: key(2), amount: 100 },
        token_to_rx_acc: TokenAccount { key: key(3), amount: 7 },
        escrow_acc: fresh_slot(),
        token_program: key(4),
    }
}

#[test]
fn lock_writes_every_field_of_the_record() {
    let mut accounts = initiation();
    accounts.lock(50, &key(9));
    assert_eq!(
        accounts.escrow_acc,
        EscrowAcc {
            is_initialized: true,
            initializer_pubkey: key(1),
            temp_token_acc_pubkey: key(2),
            initializer_token_to_receive_acc_pubkey: key(3),
            expected_amount: 50,
        }
    );
}

#[test]
fn lock_changes_nothing_but_the_record() {
    let before = initiation();
    let mut accounts = before;
    accounts.lock(50, &key(9));
    assert_eq!(accounts.initializer_acc, before.initializer_acc);
    assert_eq!(accounts.temp_token_acc, before.temp_token_acc);
    assert_eq!(accounts.token_to_rx_acc, before.token_to_rx_acc);
    assert_eq!(accounts.token_program, before.token_program);
}

#[test]
fn lock_hands_the_custody_account_to_the_given_authority() {
    let mut accounts = initiation();
    let call = accounts.lock(50, &key(9));
    assert_eq!(
        call,
        SetAuthorityCall {
            ctx: CpiContext {
                program: key(4),
                accounts: SetAuthority { account_or_mint: key(2), current_authority: key(1) },
                signer_seeds: None,
            },
            authority_type: AuthorityType::AccountOwner,
            new_authority: Some(key(9)),
        }
    );
}

#[test]
fn lock_overwrites_an_earlier_record() {
    let mut accounts = initiation();
    accounts.lock(50, &key(9));
    accounts.initializer_acc = key(11);
    accounts.lock(u64::MAX, &key(9));
    assert_eq!(accounts.escrow_acc.initializer_pubkey, key(11));
    assert_eq!(accounts.escrow_acc.expected_amount, u64::MAX);
    assert!(accounts.escrow_acc.is_initialized);
}

#[test]
fn set_authority_context_is_built_from_the_initiation_accounts() {
    let accounts = initiation();
    let ctx: CpiContext<SetAuthority> = CpiContext::from(&accounts);
    assert_eq!(ctx.program, key(4));
    assert_eq!(ctx.accounts.account_or_mint, key(2));
    assert_eq!(ctx.accounts.current_authority, key(1));
    assert_eq!(ctx.signer_seeds, None);
}

#[test]
fn init_escrow_records_the_demand_and_delegates_to_the_derived_authority() {
    let program_id = key(42);
    let derived = find_escrow_authority(&program_id).unwrap();
    let mut accounts = initiation();
    let call = init_escrow(&program_id, &mut accounts, 50).unwrap();
    assert!(accounts.escrow_acc.is_initialized);
    assert_eq!(accounts.escrow_acc.initializer_pubkey, key(1));
    assert_eq!(accounts.escrow_acc.temp_token_acc_pubkey, key(2));
    assert_eq!(accounts.escrow_acc.initializer_token_to_receive_acc_pubkey, key(3));
    assert_eq!(accounts.escrow_acc.expected_amount, 50);
    assert_eq!(call.new_authority, Some(derived.address));
    assert_ne!(call.new_authority, Some(program_id));
    assert_eq!(call.authority_type, AuthorityType::AccountOwner);
    assert_eq!(call.ctx.accounts.account_or_mint, key(2));
    assert_eq!(call.ctx.accounts.current_authority, key(1));
    assert_eq!(call.ctx.signer_seeds, None);
}

#[test]
fn init_escrow_accepts_a_demand_of_zero() {
    let mut accounts = initiation();
    init_escrow(&key(42), &mut accounts, 0).unwrap();
    assert!(accounts.escrow_acc.is_initialized);
    assert_eq!(accounts.escrow_acc.expected_amount, 0);
}

#[test]
fn every_escrow_of_a_program_is_delegated_to_the_same_authority() {
    let program_id = key(42);
    let mut one = initiation();
    let mut other = initiation();
    other.initializer_acc = key(21);
    other.temp_token_acc.key = key(22);
    let first = init_escrow(&program_id, &mut one, 50).unwrap();
    let second = init_escrow(&program_id, &mut other, 60).unwrap();
    assert_eq!(first.new_authority, second.new_authority);
}
