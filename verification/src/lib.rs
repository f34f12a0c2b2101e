//! Custodial tipping vaults: a singleton platform configuration, one vault per
//! streamer, fee-free deposits, fee-split withdrawals and administrative
//! sweeps of the fee treasury.
//!
//! Every operation is a decision over plain snapshots of the accounts
//! involved. It either names the delegated transfers that the token ledger has
//! to execute, in order, or fails with one error and names none. The caller
//! loads the snapshots, executes the transfers as one unit and stores the
//! records that changed; operations on the same accounts must not overlap.

pub mod address;
pub mod errors;
pub mod identity;
pub mod instructions;
pub mod ledger;
pub mod state;
pub mod token;

use vstd::prelude::*;
use crate::address::{
    associated_token_address, derive_associated_token, derive_global_state, derive_streamer, global_state_address,
    streamer_address,
};
use crate::errors::SwitchedError;
use crate::identity::Identity;
use crate::instructions::create_streamer::CreateStreamer;
use crate::instructions::global_state::{InitializeGlobalState, InitializeParams};
use crate::instructions::tip_streamer::{TipParams, TipStreamer};
use crate::instructions::withdraw::{Withdraw, WithdrawParams, WithdrawTransfers};
use crate::instructions::withdraw_admin::{AdminWithdrawParams, AdminWithdrawal};
use crate::token::TransferChecked;

verus! {

/// The bytes of the identifier under which the program is deployed.
pub open spec fn id_bytes() -> Seq<u8> {
    seq![
        0x0du8, 0x0c, 0xe9, 0xba, 0xf8, 0xe3, 0xc3, 0x21, 0x13, 0xb7, 0x15, 0x74, 0x36, 0xea, 0x06, 0xd2,
        0x4f, 0xc1, 0xc0, 0x31, 0x46, 0x1c, 0x65, 0xf1, 0xa1, 0x3e, 0x46, 0x0f, 0x43, 0xe3, 0xe8, 0x34,
    ]
}

/// The identifier under which the program is deployed
/// (`swinS25mqCw6ExEAtLJFxp6HYcqMvoYxKz3by6FfbRD` in base 58).
pub fn id() -> (program: Identity)
    ensures
        program@ == id_bytes(),
{
    let program = Identity::new(
        [
            0x0du8, 0x0c, 0xe9, 0xba, 0xf8, 0xe3, 0xc3, 0x21, 0x13, 0xb7, 0x15, 0x74, 0x36, 0xea, 0x06, 0xd2,
            0x4f, 0xc1, 0xc0, 0x31, 0x46, 0x1c, 0x65, 0xf1, 0xa1, 0x3e, 0x46, 0x0f, 0x43, 0xe3, 0xe8, 0x34,
        ],
    );
    assert(program@ =~= id_bytes());
    program
}

/// Initializes the platform configuration of `program_id`. The account
/// offered must stand at the address derived for the configuration, and
/// the treasury at the address derived for the token account that the
/// configuration holds; the nonce of the configuration is recorded with
/// it. An initialized configuration is refused first, whatever else is
/// offered.
pub fn initialize(program_id: &Identity, accounts: &mut InitializeGlobalState, params: InitializeParams) -> (result:
    Result<(), SwitchedError>)
    ensures
        result == old(accounts).outcome_derived(
            params,
            global_state_address(program_id@),
            associated_token_address(
                old(accounts).global_state_key@,
                old(accounts).token_mint.key@,
                old(accounts).token_program@,
            ),
        ),
        *final(accounts) == old(accounts).after_derived(
            params,
            global_state_address(program_id@),
            associated_token_address(
                old(accounts).global_state_key@,
                old(accounts).token_mint.key@,
                old(accounts).token_program@,
            ),
        ),
        old(accounts).global_state.wf() ==> final(accounts).global_state.wf(),
{
    let config = derive_global_state(program_id);
    let treasury = derive_associated_token(
        &accounts.global_state_key,
        &accounts.token_mint.key,
        &accounts.token_program,
    );
    accounts.initialize_derived(params, config, treasury)
}

/// Registers the vault of the signer under `program_id`. The record
/// offered must stand at the address derived from the vault label and the
/// signer, and the vault's token account at the address derived for the
/// token account that the record holds; the nonce of the record is
/// recorded with it.
pub fn create_streamer(program_id: &Identity, accounts: &mut CreateStreamer) -> (result: Result<(), SwitchedError>)
    ensures
        result == old(accounts).outcome_derived(
            streamer_address(program_id@, old(accounts).signer@),
            global_state_address(program_id@),
            associated_token_address(
                old(accounts).streamer_state_key@,
                old(accounts).token_mint.key@,
                old(accounts).token_program@,
            ),
        ),
        *final(accounts) == old(accounts).after_derived(
            streamer_address(program_id@, old(accounts).signer@),
            global_state_address(program_id@),
            associated_token_address(
                old(accounts).streamer_state_key@,
                old(accounts).token_mint.key@,
                old(accounts).token_program@,
            ),
        ),
{
    let vault = derive_streamer(program_id, &accounts.signer);
    let config = derive_global_state(program_id);
    let vault_account = derive_associated_token(
        &accounts.streamer_state_key,
        &accounts.token_mint.key,
        &accounts.token_program,
    );
    accounts.create_streamer_derived(vault, config, vault_account)
}

/// Deposits into the vault of the streamer that `params` names. The
/// record offered must stand at the address derived for that streamer.
pub fn tip_user(program_id: &Identity, accounts: &TipStreamer, params: TipParams) -> (result: Result<
    TransferChecked,
    SwitchedError,
>)
    ensures
        result == accounts.outcome_derived(
            params,
            streamer_address(program_id@, params.streamer_account@),
            global_state_address(program_id@),
        ),
{
    let vault = derive_streamer(program_id, &params.streamer_account);
    let config = derive_global_state(program_id);
    accounts.tip_derived(params, vault, config)
}

/// Withdraws from the signer's own vault. The record offered must stand
/// at the address derived for the signer, so nobody reaches a vault
/// through another owner's record.
pub fn withdraw(program_id: &Identity, accounts: &Withdraw, params: WithdrawParams) -> (result: Result<
    WithdrawTransfers,
    SwitchedError,
>)
    ensures
        result == accounts.outcome_derived(
            params,
            streamer_address(program_id@, accounts.signer@),
            global_state_address(program_id@),
        ),
{
    let vault = derive_streamer(program_id, &accounts.signer);
    let config = derive_global_state(program_id);
    accounts.withdraw_derived(params, vault, config)
}

/// Sweeps a given amount out of the treasury.
pub fn admin_withdraw_fees(program_id: &Identity, accounts: &AdminWithdrawal, params: AdminWithdrawParams) -> (result:
    Result<TransferChecked, SwitchedError>)
    ensures
        result == accounts.outcome_derived(params, global_state_address(program_id@)),
{
    let config = derive_global_state(program_id);
    accounts.admin_withdraw_derived(params, config)
}

/// Sweeps the whole treasury.
pub fn admin_withdraw_fees_all(program_id: &Identity, accounts: &AdminWithdrawal) -> (result: Result<
    TransferChecked,
    SwitchedError,
>)
    ensures
        result == accounts.outcome_all_derived(global_state_address(program_id@)),
{
    let config = derive_global_state(program_id);
    accounts.withdraw_all_derived(config)
}

} // verus!
