use anchor_lang::prelude::Pubkey;
use anchor_spl::associated_token::get_associated_token_address_with_program_id;
use switched_fun::errors::SwitchedError;
use switched_fun::identity::Identity;
use switched_fun::instructions::{InitializeGlobalState, InitializeGlobalStateBumps, InitializeParams};
use switched_fun::state::GlobalState;
use switched_fun::token::{Mint, TokenAccount};
use switched_fun::{id, initialize};

fn key(n: u8) -> Identity {
    Identity::new([n; 32])
}

fn fresh() -> InitializeGlobalState {
    InitializeGlobalState {
        signer: key(8),
        global_state_key: key(3),
        global_state: GlobalState::empty(),
        treasury_account: TokenAccount { key: key(4), mint: key(2), owner: key(3), amount: 0 },
        token_mint: Mint { key: key(2), decimals: 6 },
        token_program: key(15),
    }
}

fn pubkey(id: &Identity) -> Pubkey {
    Pubkey::new_from_array(id.to_bytes())
}

fn on_chain() -> InitializeGlobalState {
    let (address, _) = Pubkey::find_program_address(&[b"global_state"], &pubkey(&id()));
    let mut accounts = fresh();
    accounts.global_state_key = Identity::new(address.to_bytes());
    accounts.treasury_account.owner = accounts.global_state_key;
    let treasury = get_associated_token_address_with_program_id(
        &address,
        &pubkey(&accounts.token_mint.key),
        &pubkey(&accounts.token_program),
    );
    accounts.treasury_account.key = Identity::new(treasury.to_bytes());
    accounts
}

fn bumps(bump: u8) -> InitializeGlobalStateBumps {
    InitializeGlobalStateBumps { global_state: bump }
}

#[test]
fn empty_configuration_is_all_zero() {
    let state = GlobalState::empty();
    assert!(!state.initialized);
    assert_eq!(state.platform_fee_bps, 0);
    assert_eq!(state.bump, 0);
    assert_eq!(state.admin, key(0));
    assert_eq!(state.platform_fee_account, key(0));
    assert_eq!(state.supported_tokens_mint, key(0));
}

#[test]
fn initialize_records_every_field() {
    let mut accounts = fresh();
    assert_eq!(accounts.handle_initialize(InitializeParams { fee_bps: 500 }, &bumps(251)), Ok(()));
    assert_eq!(
        accounts.global_state,
        GlobalState {
            admin: key(8),
            platform_fee_bps: 500,
            platform_fee_account: key(4),
            supported_tokens_mint: key(2),
            bump: 251,
            initialized: true,
        }
    );
}

#[test]
fn initialize_twice_fails_and_changes_nothing() {
    let mut accounts = fresh();
    assert_eq!(accounts.handle_initialize(InitializeParams { fee_bps: 500 }, &bumps(251)), Ok(()));
    let once = accounts;
    accounts.signer = key(9);
    let again = accounts.handle_initialize(InitializeParams { fee_bps: 1 }, &bumps(7));
    assert_eq!(again, Err(SwitchedError::AlreadyInitialized));
    assert_eq!(accounts.global_state, once.global_state);
    assert_eq!(accounts.treasury_account, once.treasury_account);
    accounts.signer = key(8);
    assert_eq!(accounts, once);
}

#[test]
fn initialize_twice_fails_even_with_bad_parameters() {
    let mut accounts = fresh();
    assert_eq!(accounts.handle_initialize(InitializeParams { fee_bps: 0 }, &bumps(1)), Ok(()));
    accounts.token_mint.decimals = 9;
    accounts.treasury_account.owner = key(9);
    let again = accounts.handle_initialize(InitializeParams { fee_bps: u16::MAX }, &bumps(1));
    assert_eq!(again, Err(SwitchedError::AlreadyInitialized));
}

#[test]
fn initialize_bounds_the_fee_rate() {
    let mut top = fresh();
    assert_eq!(top.handle_initialize(InitializeParams { fee_bps: 9_999 }, &bumps(1)), Ok(()));
    assert_eq!(top.global_state.platform_fee_bps, 9_999);
    let mut whole = fresh();
    assert_eq!(
        whole.handle_initialize(InitializeParams { fee_bps: 10_000 }, &bumps(1)),
        Err(SwitchedError::BasePointError)
    );
    assert_eq!(whole, fresh());
    let mut most = fresh();
    assert_eq!(
        most.handle_initialize(InitializeParams { fee_bps: u16::MAX }, &bumps(1)),
        Err(SwitchedError::BasePointError)
    );
    let mut none = fresh();
    assert_eq!(none.handle_initialize(InitializeParams { fee_bps: 0 }, &bumps(1)), Ok(()));
}

#[test]
fn initialize_needs_six_decimals() {
    let mut accounts = fresh();
    accounts.token_mint.decimals = 9;
    assert_eq!(
        accounts.handle_initialize(InitializeParams { fee_bps: 500 }, &bumps(1)),
        Err(SwitchedError::InvalidMint)
    );
    assert!(!accounts.global_state.initialized);
}

#[test]
fn initialize_checks_the_treasury() {
    let mut token = fresh();
    token.treasury_account.mint = key(9);
    assert_eq!(
        token.handle_initialize(InitializeParams { fee_bps: 500 }, &bumps(1)),
        Err(SwitchedError::TreasuryError)
    );
    let mut held = fresh();
    held.treasury_account.owner = key(8);
    assert_eq!(
        held.handle_initialize(InitializeParams { fee_bps: 500 }, &bumps(1)),
        Err(SwitchedError::TreasuryError)
    );
    assert_eq!(held.global_state, GlobalState::empty());
}

#[test]
fn initialize_checks_in_order() {
    let mut accounts = fresh();
    accounts.token_mint.decimals = 0;
    accounts.treasury_account.mint = key(9);
    assert_eq!(
        accounts.handle_initialize(InitializeParams { fee_bps: 10_000 }, &bumps(1)),
        Err(SwitchedError::BasePointError)
    );
    assert_eq!(
        accounts.handle_initialize(InitializeParams { fee_bps: 1 }, &bumps(1)),
        Err(SwitchedError::InvalidMint)
    );
}

#[test]
fn program_identifier_is_the_published_one() {
    let published: Pubkey = "swinS25mqCw6ExEAtLJFxp6HYcqMvoYxKz3by6FfbRD".parse().unwrap();
    assert_eq!(id().to_bytes(), published.to_bytes());
}

#[test]
fn initialize_records_the_derived_nonce() {
    let (_, bump) = Pubkey::find_program_address(&[b"global_state"], &pubkey(&id()));
    let mut accounts = on_chain();
    assert_eq!(initialize(&id(), &mut accounts, InitializeParams { fee_bps: 300 }), Ok(()));
    assert!(accounts.global_state.initialized);
    assert_eq!(accounts.global_state.bump, bump);
    assert_eq!(accounts.global_state.platform_fee_bps, 300);
    assert_eq!(accounts.global_state.admin, key(8));
    assert_eq!(accounts.global_state.platform_fee_account, accounts.treasury_account.key);
    assert_eq!(
        initialize(&id(), &mut accounts, InitializeParams { fee_bps: 300 }),
        Err(SwitchedError::AlreadyInitialized)
    );
}

#[test]
fn initialize_refuses_an_account_at_another_address() {
    let mut accounts = fresh();
    let before = accounts;
    assert_eq!(
        initialize(&id(), &mut accounts, InitializeParams { fee_bps: 300 }),
        Err(SwitchedError::NotInitialized)
    );
    assert_eq!(accounts, before);
    let mut moved = on_chain();
    let elsewhere = Identity::new([77; 32]);
    assert_eq!(
        initialize(&elsewhere, &mut moved, InitializeParams { fee_bps: 300 }),
        Err(SwitchedError::NotInitialized)
    );
    assert_eq!(moved, on_chain());
}

#[test]
fn initialize_refuses_a_treasury_at_another_address() {
    let mut accounts = on_chain();
    accounts.treasury_account.key = key(4);
    assert_eq!(
        initialize(&id(), &mut accounts, InitializeParams { fee_bps: 300 }),
        Err(SwitchedError::TreasuryError)
    );
    assert!(!accounts.global_state.initialized);
    let mut program = on_chain();
    program.token_program = key(16);
    assert_eq!(
        initialize(&id(), &mut program, InitializeParams { fee_bps: 300 }),
        Err(SwitchedError::TreasuryError)
    );
    let mut rate = on_chain();
    rate.treasury_account.key = key(4);
    assert_eq!(
        initialize(&id(), &mut rate, InitializeParams { fee_bps: 10_000 }),
        Err(SwitchedError::BasePointError)
    );
}
