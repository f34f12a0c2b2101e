use switched_fun::errors::SwitchedError;
use switched_fun::identity::Identity;
use switched_fun::instructions::{TipParams, TipStreamer, Withdraw, WithdrawParams};
use switched_fun::state::{GlobalState, Streamer};
use switched_fun::token::{Authority, Mint, TokenAccount, TransferChecked};

fn key(n: u8) -> Identity {
    Identity::new([n; 32])
}

const OWNER: u8 = 1;
const MINT: u8 = 2;
const CONFIG: u8 = 3;
const TREASURY: u8 = 4;
const RECORD: u8 = 5;
const VAULT: u8 = 6;
const DESTINATION: u8 = 7;
const ADMIN: u8 = 8;
const STRANGER: u8 = 9;
const DEPOSITOR: u8 = 10;
const SOURCE: u8 = 11;

fn config(fee_bps: u16) -> GlobalState {
    GlobalState {
        admin: key(ADMIN),
        platform_fee_bps: fee_bps,
        platform_fee_account: key(TREASURY),
        supported_tokens_mint: key(MINT),
        bump: 254,
        initialized: true,
    }
}

fn record() -> Streamer {
    Streamer { user_wallet: key(OWNER), user_token_account: key(VAULT), bump: 253 }
}

fn withdrawal(fee_bps: u16, vault_balance: u64) -> Withdraw {
    Withdraw {
        signer: key(OWNER),
        receiving_ata: TokenAccount { key: key(DESTINATION), mint: key(MINT), owner: key(OWNER), amount: 0 },
        streamer_ata: TokenAccount { key: key(VAULT), mint: key(MINT), owner: key(RECORD), amount: vault_balance },
        token_mint: Mint { key: key(MINT), decimals: 6 },
        global_state_key: key(CONFIG),
        global_state: config(fee_bps),
        treasury_account: TokenAccount { key: key(TREASURY), mint: key(MINT), owner: key(CONFIG), amount: 0 },
        streamer_state_key: key(RECORD),
        streamer_state: record(),
    }
}

fn leg(to: u8, amount: u64) -> TransferChecked {
    TransferChecked {
        from: key(VAULT),
        mint: key(MINT),
        to: key(to),
        authority: key(RECORD),
        signer: Authority::Vault { owner: key(OWNER), bump: 253 },
        amount,
        decimals: 6,
    }
}

#[test]
fn withdraw_splits_the_worked_example() {
    let accounts = withdrawal(500, 1000);
    let plan = accounts.handle_withdraw(WithdrawParams { gas_in_usdc: 10, amount: 1000 }).unwrap();
    assert_eq!(plan.to_treasury.amount, 60);
    assert_eq!(plan.to_user.amount, 940);
    assert_eq!(plan.to_treasury.amount - 10, 50);
}

#[test]
fn withdraw_names_both_legs_in_full() {
    let accounts = withdrawal(500, 5000);
    let plan = accounts.handle_withdraw(WithdrawParams { gas_in_usdc: 10, amount: 1000 }).unwrap();
    assert_eq!(plan.to_treasury, leg(TREASURY, 60));
    assert_eq!(plan.to_user, leg(DESTINATION, 940));
}

#[test]
fn withdraw_takes_exactly_the_amount_out_of_the_vault() {
    let cases: [(u16, u64, u64, u64); 6] = [
        (0, 1, 0, 1),
        (1, 9_999, 0, 9_999),
        (250, 123_456_789, 1_000, 200_000_000),
        (9_999, 10_000, 1, 10_000),
        (500, 0, 0, 0),
        (1_999, 1_000_000_000_000, 999, 1_000_000_000_000),
    ];
    for (fee_bps, amount, gas, balance) in cases {
        let accounts = withdrawal(fee_bps, balance);
        let plan = accounts.handle_withdraw(WithdrawParams { gas_in_usdc: gas, amount }).unwrap();
        let fee = (amount as u128 * fee_bps as u128 / 10_000) as u64;
        assert_eq!(plan.to_user.amount, amount - gas - fee);
        assert_eq!(plan.to_treasury.amount, amount - plan.to_user.amount);
        let debited = plan.to_treasury.amount + plan.to_user.amount;
        assert_eq!(balance - debited, balance - amount);
    }
}

#[test]
fn withdraw_fee_rounds_down() {
    let accounts = withdrawal(500, 999);
    let plan = accounts.handle_withdraw(WithdrawParams { gas_in_usdc: 0, amount: 999 }).unwrap();
    assert_eq!(plan.to_treasury.amount, 49);
    assert_eq!(plan.to_user.amount, 950);
    let small = withdrawal(9_999, 1);
    let plan = small.handle_withdraw(WithdrawParams { gas_in_usdc: 0, amount: 1 }).unwrap();
    assert_eq!(plan.to_treasury.amount, 0);
    assert_eq!(plan.to_user.amount, 1);
}

#[test]
fn withdraw_by_a_stranger_is_unauthorized() {
    let mut accounts = withdrawal(500, 1000);
    accounts.signer = key(STRANGER);
    let refused = accounts.handle_withdraw(WithdrawParams { gas_in_usdc: 10, amount: 1000 });
    assert_eq!(refused, Err(SwitchedError::Unauthorized));
    let admin = Withdraw { signer: key(ADMIN), ..withdrawal(500, 1000) };
    assert_eq!(
        admin.handle_withdraw(WithdrawParams { gas_in_usdc: 0, amount: 1 }),
        Err(SwitchedError::Unauthorized)
    );
}

#[test]
fn withdraw_authorization_comes_before_every_other_check() {
    let mut accounts = withdrawal(500, 10);
    accounts.signer = key(STRANGER);
    accounts.global_state.initialized = false;
    accounts.receiving_ata.mint = key(STRANGER);
    accounts.treasury_account.key = key(STRANGER);
    let refused = accounts.handle_withdraw(WithdrawParams { gas_in_usdc: u64::MAX, amount: u64::MAX });
    assert_eq!(refused, Err(SwitchedError::Unauthorized));
}

#[test]
fn withdraw_above_the_balance_is_refused() {
    let accounts = withdrawal(500, 999);
    assert_eq!(
        accounts.handle_withdraw(WithdrawParams { gas_in_usdc: 0, amount: 1000 }),
        Err(SwitchedError::InsufficientVaultBalance)
    );
    assert!(accounts.handle_withdraw(WithdrawParams { gas_in_usdc: 0, amount: 999 }).is_ok());
    let empty = withdrawal(0, 0);
    assert_eq!(
        empty.handle_withdraw(WithdrawParams { gas_in_usdc: 0, amount: 1 }),
        Err(SwitchedError::InsufficientVaultBalance)
    );
}

#[test]
fn withdraw_balance_is_checked_before_the_arithmetic() {
    let accounts = withdrawal(9_999, 5);
    assert_eq!(
        accounts.handle_withdraw(WithdrawParams { gas_in_usdc: u64::MAX, amount: u64::MAX }),
        Err(SwitchedError::InsufficientVaultBalance)
    );
}

#[test]
fn withdraw_reports_a_fee_product_that_overflows() {
    let accounts = withdrawal(2, u64::MAX);
    assert_eq!(
        accounts.handle_withdraw(WithdrawParams { gas_in_usdc: 0, amount: u64::MAX }),
        Err(SwitchedError::MultiplicationOverflow)
    );
    let edge = u64::MAX / 500;
    let fits = withdrawal(500, u64::MAX);
    let plan = fits.handle_withdraw(WithdrawParams { gas_in_usdc: 0, amount: edge }).unwrap();
    assert_eq!(plan.to_treasury.amount, edge / 20);
    assert_eq!(
        fits.handle_withdraw(WithdrawParams { gas_in_usdc: 0, amount: edge + 1 }),
        Err(SwitchedError::MultiplicationOverflow)
    );
    let free = withdrawal(0, u64::MAX);
    let plan = free.handle_withdraw(WithdrawParams { gas_in_usdc: 0, amount: u64::MAX }).unwrap();
    assert_eq!(plan.to_user.amount, u64::MAX);
}

#[test]
fn withdraw_refuses_fees_above_the_amount() {
    let accounts = withdrawal(500, 1000);
    assert_eq!(
        accounts.handle_withdraw(WithdrawParams { gas_in_usdc: 96, amount: 100 }),
        Err(SwitchedError::InvalidAmount)
    );
    let plan = accounts.handle_withdraw(WithdrawParams { gas_in_usdc: 95, amount: 100 }).unwrap();
    assert_eq!(plan.to_user.amount, 0);
    assert_eq!(plan.to_treasury.amount, 100);
    assert_eq!(
        accounts.handle_withdraw(WithdrawParams { gas_in_usdc: u64::MAX, amount: 100 }),
        Err(SwitchedError::InvalidAmount)
    );
    assert_eq!(
        accounts.handle_withdraw(WithdrawParams { gas_in_usdc: 1, amount: 0 }),
        Err(SwitchedError::InvalidAmount)
    );
}

#[test]
fn withdraw_needs_an_initialized_configuration() {
    let mut accounts = withdrawal(500, 1000);
    accounts.global_state.initialized = false;
    assert_eq!(
        accounts.handle_withdraw(WithdrawParams { gas_in_usdc: 0, amount: 1 }),
        Err(SwitchedError::NotInitialized)
    );
}

#[test]
fn withdraw_checks_the_token_of_every_account() {
    let params = WithdrawParams { gas_in_usdc: 0, amount: 1 };
    let mut destination = withdrawal(500, 1000);
    destination.receiving_ata.mint = key(STRANGER);
    assert_eq!(destination.handle_withdraw(params), Err(SwitchedError::InvalidMintAddress));
    let mut offered = withdrawal(500, 1000);
    offered.token_mint.key = key(STRANGER);
    assert_eq!(offered.handle_withdraw(params), Err(SwitchedError::InvalidMintAddress));
    let mut vault = withdrawal(500, 1000);
    vault.streamer_ata.mint = key(STRANGER);
    assert_eq!(vault.handle_withdraw(params), Err(SwitchedError::InvalidMintAddress));
}

#[test]
fn withdraw_checks_that_the_vault_is_the_records() {
    let params = WithdrawParams { gas_in_usdc: 0, amount: 1 };
    let mut other = withdrawal(500, 1000);
    other.streamer_ata.key = key(STRANGER);
    assert_eq!(other.handle_withdraw(params), Err(SwitchedError::WrongOwner));
    let mut direct = withdrawal(500, 1000);
    direct.streamer_ata.owner = key(OWNER);
    assert_eq!(direct.handle_withdraw(params), Err(SwitchedError::WrongOwner));
}

#[test]
fn withdraw_checks_the_treasury() {
    let params = WithdrawParams { gas_in_usdc: 0, amount: 1 };
    let mut other = withdrawal(500, 1000);
    other.treasury_account.key = key(STRANGER);
    assert_eq!(other.handle_withdraw(params), Err(SwitchedError::TreasuryError));
    let mut held = withdrawal(500, 1000);
    held.treasury_account.owner = key(ADMIN);
    assert_eq!(held.handle_withdraw(params), Err(SwitchedError::TreasuryError));
    let mut token = withdrawal(500, 1000);
    token.treasury_account.mint = key(STRANGER);
    assert_eq!(token.handle_withdraw(params), Err(SwitchedError::TreasuryError));
}

#[test]
fn deposit_then_withdraw_at_no_fee_returns_everything() {
    let amount: u64 = 777_000;
    let deposit = TipStreamer {
        signer: key(DEPOSITOR),
        signer_ata: TokenAccount { key: key(SOURCE), mint: key(MINT), owner: key(DEPOSITOR), amount },
        streamer_ata: TokenAccount { key: key(VAULT), mint: key(MINT), owner: key(RECORD), amount: 0 },
        token_mint: Mint { key: key(MINT), decimals: 6 },
        streamer_state_key: key(RECORD),
        streamer_state: record(),
        global_state_key: key(CONFIG),
        global_state: config(0),
    };
    let moved = deposit.handle_tip(TipParams { amount, streamer_account: key(OWNER) }).unwrap();
    assert_eq!(moved.to, key(VAULT));
    let vault_balance = 0 + moved.amount;
    assert_eq!(vault_balance, amount);

    let accounts = withdrawal(0, vault_balance);
    let plan = accounts.handle_withdraw(WithdrawParams { gas_in_usdc: 0, amount }).unwrap();
    assert_eq!(plan.to_user.amount, amount);
    assert_eq!(plan.to_treasury.amount, 0);
    assert_eq!(plan.to_treasury.from, key(VAULT));
    assert_eq!(plan.to_user.from, key(VAULT));
    assert_eq!(vault_balance - plan.to_treasury.amount - plan.to_user.amount, 0);
}

#[test]
fn vault_authority_signs_with_label_owner_and_nonce() {
    let accounts = withdrawal(500, 1000);
    let plan = accounts.handle_withdraw(WithdrawParams { gas_in_usdc: 0, amount: 1000 }).unwrap();
    let seeds = plan.to_user.signer.signer_seeds();
    assert_eq!(seeds, vec![b"user".to_vec(), vec![OWNER; 32], vec![253u8]]);
    assert_eq!(plan.to_treasury.signer.signer_seeds(), seeds);
}

fn derived(seeds: &[&[u8]]) -> (Identity, u8) {
    let program = anchor_lang::prelude::Pubkey::new_from_array(switched_fun::id().to_bytes());
    let (address, bump) = anchor_lang::prelude::Pubkey::find_program_address(seeds, &program);
    (Identity::new(address.to_bytes()), bump)
}

fn on_chain(fee_bps: u16, vault_balance: u64) -> Withdraw {
    let (config_key, config_bump) = derived(&[b"global_state"]);
    let (record_key, record_bump) = derived(&[b"user", &key(OWNER).bytes]);
    let mut accounts = withdrawal(fee_bps, vault_balance);
    accounts.global_state_key = config_key;
    accounts.global_state.bump = config_bump;
    accounts.treasury_account.owner = config_key;
    accounts.streamer_state_key = record_key;
    accounts.streamer_state.bump = record_bump;
    accounts.streamer_ata.owner = record_key;
    accounts
}

#[test]
fn withdraw_entry_goes_by_the_derived_addresses() {
    let accounts = on_chain(500, 1000);
    let plan = switched_fun::withdraw(&switched_fun::id(), &accounts, WithdrawParams { gas_in_usdc: 10, amount: 1000 })
        .unwrap();
    assert_eq!(plan.to_treasury.amount, 60);
    assert_eq!(plan.to_user.amount, 940);
    assert_eq!(plan.to_user.authority, accounts.streamer_state_key);
    assert_eq!(
        plan.to_user.signer,
        Authority::Vault { owner: key(OWNER), bump: accounts.streamer_state.bump }
    );
}

#[test]
fn withdraw_entry_refuses_whoever_is_not_the_owner() {
    let params = WithdrawParams { gas_in_usdc: 10, amount: 1000 };
    let mut stranger = on_chain(500, 1000);
    stranger.signer = key(STRANGER);
    assert_eq!(
        switched_fun::withdraw(&switched_fun::id(), &stranger, params),
        Err(SwitchedError::WrongOwner)
    );
    let (own_key, own_bump) = derived(&[b"user", &key(STRANGER).bytes]);
    let mut forged = on_chain(500, 1000);
    forged.signer = key(STRANGER);
    forged.streamer_state_key = own_key;
    forged.streamer_state.bump = own_bump;
    assert_eq!(
        switched_fun::withdraw(&switched_fun::id(), &forged, params),
        Err(SwitchedError::Unauthorized)
    );
}

#[test]
fn withdraw_entry_refuses_a_configuration_at_another_address() {
    let params = WithdrawParams { gas_in_usdc: 10, amount: 1000 };
    let mut moved = on_chain(500, 1000);
    moved.global_state_key = key(CONFIG);
    moved.treasury_account.owner = key(CONFIG);
    assert_eq!(
        switched_fun::withdraw(&switched_fun::id(), &moved, params),
        Err(SwitchedError::NotInitialized)
    );
    assert_eq!(
        switched_fun::withdraw(&key(77), &on_chain(500, 1000), params),
        Err(SwitchedError::WrongOwner)
    );
}
