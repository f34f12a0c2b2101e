//! Sweeps: the administrator moves collected fees out of the treasury,
//! a given amount or all of them.

use vstd::prelude::*;
use crate::address::{derivation_matches, derived_as, derived_view};
use crate::errors::SwitchedError;
use crate::identity::Identity;
use crate::ledger::{lemma_settle_one, settle};
use crate::state::global_state::GlobalState;
use crate::token::{Authority, Mint, TokenAccount, TransferChecked};

verus! {

/// What the caller asks for.
#[derive(Clone, Copy, Debug, PartialEq, Eq)]
pub struct AdminWithdrawParams {
    /// Amount to take out of the treasury.
    pub amount: u64,
}

/// The accounts of a sweep.
#[derive(Clone, Copy, Debug, PartialEq, Eq)]
pub struct AdminWithdrawal {
    /// The caller.
    pub signer: Identity,
    /// Address of the platform configuration.
    pub global_state_key: Identity,
    /// The platform configuration.
    pub global_state: GlobalState,
    /// The treasury.
    pub treasury_account: TokenAccount,
    /// Where the fees go. Only its token is checked, not whose it is.
    pub receiving_ata: TokenAccount,
    /// The token of the transfer.
    pub token_mint: Mint,
}

impl AdminWithdrawal {
    /// The caller is the administrator that the configuration names.
    pub open spec fn authorized(self) -> bool {
        self.signer@ == self.global_state.admin@
    }

    /// The treasury is the one that the configuration names, holds the
    /// supported token and is controlled by the configuration's authority.
    pub open spec fn treasury_matches(self) -> bool {
        &&& self.treasury_account.key@ == self.global_state.platform_fee_account@
        &&& self.treasury_account.mint@ == self.token_mint.key@
        &&& self.treasury_account.owner@ == self.global_state_key@
    }

    /// The token offered is the supported one and the destination holds it.
    pub open spec fn token_matches(self) -> bool {
        &&& self.token_mint.key@ == self.global_state.supported_tokens_mint@
        &&& self.receiving_ata.mint@ == self.token_mint.key@
    }

    /// The first reason, in the order of the checks, for which a sweep of
    /// any amount is refused; `None` where the accounts pass.
    pub open spec fn accounts_refusal(self) -> Option<SwitchedError> {
        if !self.authorized() {
            Some(SwitchedError::Unauthorized)
        } else if !self.global_state.initialized {
            Some(SwitchedError::NotInitialized)
        } else if !self.treasury_matches() {
            Some(SwitchedError::TreasuryError)
        } else if !self.token_matches() {
            Some(SwitchedError::InvalidMintAddress)
        } else {
            None
        }
    }

    /// A transfer of `amount` out of the treasury into the destination,
    /// signed by the configuration through its derivation.
    pub open spec fn treasury_transfer(self, amount: u64) -> TransferChecked {
        TransferChecked {
            from: self.treasury_account.key,
            mint: self.token_mint.key,
            to: self.receiving_ata.key,
            authority: self.global_state_key,
            signer: Authority::Config { bump: self.global_state.bump },
            amount,
            decimals: self.token_mint.decimals,
        }
    }

    /// What a sweep of `params.amount` comes to.
    pub open spec fn outcome(self, params: AdminWithdrawParams) -> Result<TransferChecked, SwitchedError> {
        match self.accounts_refusal() {
            Some(error) => Err(error),
            None => if params.amount > self.treasury_account.amount {
                Err(SwitchedError::InsufficientVaultBalance)
            } else {
                Ok(self.treasury_transfer(params.amount))
            },
        }
    }

    /// What a sweep of the whole treasury comes to.
    pub open spec fn outcome_all(self) -> Result<TransferChecked, SwitchedError> {
        match self.accounts_refusal() {
            Some(error) => Err(error),
            None => Ok(self.treasury_transfer(self.treasury_account.amount)),
        }
    }

    /// Whether the caller is the administrator and the configuration
    /// stands at the address derived for it; the error where not.
    pub open spec fn gate(self, config: Option<(Seq<u8>, u8)>) -> Option<SwitchedError> {
        if !self.authorized() {
            Some(SwitchedError::Unauthorized)
        } else if !derived_as(config, self.global_state_key@, self.global_state.bump) {
            Some(SwitchedError::NotInitialized)
        } else {
            None
        }
    }

    /// What a sweep of `params.amount` comes to once the address derived
    /// for the configuration is known.
    pub open spec fn outcome_derived(self, params: AdminWithdrawParams, config: Option<(Seq<u8>, u8)>) -> Result<
        TransferChecked,
        SwitchedError,
    > {
        match self.gate(config) {
            Some(error) => Err(error),
            None => self.outcome(params),
        }
    }

    /// What a sweep of the whole treasury comes to once the address
    /// derived for the configuration is known.
    pub open spec fn outcome_all_derived(self, config: Option<(Seq<u8>, u8)>) -> Result<
        TransferChecked,
        SwitchedError,
    > {
        match self.gate(config) {
            Some(error) => Err(error),
            None => self.outcome_all(),
        }
    }

    fn check_accounts(&self) -> (refusal: Option<SwitchedError>)
        ensures
            refusal == self.accounts_refusal(),
    {
        if self.signer != self.global_state.admin {
            Some(SwitchedError::Unauthorized)
        } else if !self.global_state.initialized {
            Some(SwitchedError::NotInitialized)
        } else if self.treasury_account.key != self.global_state.platform_fee_account
            || self.treasury_account.mint != self.token_mint.key || self.treasury_account.owner
            != self.global_state_key {
            Some(SwitchedError::TreasuryError)
        } else if self.token_mint.key != self.global_state.supported_tokens_mint || self.receiving_ata.mint
            != self.token_mint.key {
            Some(SwitchedError::InvalidMintAddress)
        } else {
            None
        }
    }

    fn check_gate(&self, config: &Option<(Identity, u8)>) -> (refusal: Option<SwitchedError>)
        ensures
            refusal == self.gate(derived_view(*config)),
    {
        if self.signer != self.global_state.admin {
            Some(SwitchedError::Unauthorized)
        } else if !derivation_matches(config, &self.global_state_key, self.global_state.bump) {
            Some(SwitchedError::NotInitialized)
        } else {
            None
        }
    }

    fn transfer_out(&self, amount: u64) -> (transfer: TransferChecked)
        ensures
            transfer == self.treasury_transfer(amount),
    {
        TransferChecked {
            from: self.treasury_account.key,
            mint: self.token_mint.key,
            to: self.receiving_ata.key,
            authority: self.global_state_key,
            signer: Authority::Config { bump: self.global_state.bump },
            amount,
            decimals: self.token_mint.decimals,
        }
    }

    /// Decides a sweep of a given amount. Only the administrator may
    /// sweep; the treasury and the destination's token are checked; an
    /// amount above the treasury's balance is refused. Where all pass, the
    /// result is one transfer of the amount out of the treasury.
    pub fn handle_admin_fee_withdraw(&self, params: AdminWithdrawParams) -> (result: Result<
        TransferChecked,
        SwitchedError,
    >)
        ensures
            result == self.outcome(params),
    {
        match self.check_accounts() {
            Some(error) => Err(error),
            None => {
                if params.amount > self.treasury_account.amount {
                    Err(SwitchedError::InsufficientVaultBalance)
                } else {
                    Ok(self.transfer_out(params.amount))
                }
            },
        }
    }

    /// Decides a sweep of everything: as for a given amount, with the
    /// treasury's balance at the time of the call as the amount.
    pub fn handle_withdraw_all(&self) -> (result: Result<TransferChecked, SwitchedError>)
        ensures
            result == self.outcome_all(),
    {
        match self.check_accounts() {
            Some(error) => Err(error),
            None => Ok(self.transfer_out(self.treasury_account.amount)),
        }
    }

    /// Decides a sweep of a given amount given the address derived for the
    /// configuration (`config`).
    pub fn admin_withdraw_derived(&self, params: AdminWithdrawParams, config: Option<(Identity, u8)>) -> (result:
        Result<TransferChecked, SwitchedError>)
        ensures
            result == self.outcome_derived(params, derived_view(config)),
    {
        match self.check_gate(&config) {
            Some(error) => Err(error),
            None => self.handle_admin_fee_withdraw(params),
        }
    }

    /// Decides a sweep of everything given the address derived for the
    /// configuration (`config`).
    pub fn withdraw_all_derived(&self, config: Option<(Identity, u8)>) -> (result: Result<
        TransferChecked,
        SwitchedError,
    >)
        ensures
            result == self.outcome_all_derived(derived_view(config)),
    {
        match self.check_gate(&config) {
            Some(error) => Err(error),
            None => self.handle_withdraw_all(),
        }
    }
}

/// Nobody but the administrator sweeps: a caller who is not the one that
/// the configuration names is refused as unauthorized, for any amount and
/// whatever else holds.
pub proof fn lemma_sweep_needs_admin(
    accounts: AdminWithdrawal,
    params: AdminWithdrawParams,
    config: Option<(Seq<u8>, u8)>,
)
    requires
        accounts.signer@ != accounts.global_state.admin@,
    ensures
        accounts.outcome(params) == Err::<TransferChecked, SwitchedError>(SwitchedError::Unauthorized),
        accounts.outcome_all() == Err::<TransferChecked, SwitchedError>(SwitchedError::Unauthorized),
        accounts.outcome_derived(params, config) == Err::<TransferChecked, SwitchedError>(
            SwitchedError::Unauthorized,
        ),
        accounts.outcome_all_derived(config) == Err::<TransferChecked, SwitchedError>(
            SwitchedError::Unauthorized,
        ),
{
}

/// Funds leave the treasury only on the word of the authority derived
/// for the configuration: where a sweep goes through by the derived
/// address, the transfer comes out of the treasury that the configuration
/// names, is signed through the configuration's derivation with its
/// nonce, and its authority is the address derived for the configuration.
pub proof fn lemma_sweep_signed_by_derived_authority(
    accounts: AdminWithdrawal,
    params: AdminWithdrawParams,
    config: Option<(Seq<u8>, u8)>,
)
    requires
        accounts.outcome_derived(params, config) is Ok,
    ensures
        accounts.outcome_derived(params, config) == accounts.outcome(params),
        config == Some((accounts.outcome(params)->Ok_0.authority@, accounts.global_state.bump)),
        accounts.outcome(params)->Ok_0.signer == (Authority::Config { bump: accounts.global_state.bump }),
        accounts.outcome(params)->Ok_0.from@ == accounts.global_state.platform_fee_account@,
        accounts.outcome(params)->Ok_0.amount == params.amount,
        accounts.signer@ == accounts.global_state.admin@,
{
}

/// A sweep of everything that goes through transfers exactly the
/// treasury's balance at the time of the call. On a ledger that agrees
/// with the treasury's snapshot, and where the destination is another
/// account than the treasury, the transfer settles, the treasury is left
/// at zero and the destination gains what the treasury held.
pub proof fn lemma_sweep_all_empties_treasury(accounts: AdminWithdrawal, balances: Map<Seq<u8>, nat>)
    requires
        accounts.outcome_all() is Ok,
        balances.dom().contains(accounts.treasury_account.key@),
        balances.dom().contains(accounts.receiving_ata.key@),
        balances[accounts.treasury_account.key@] == accounts.treasury_account.amount,
        accounts.treasury_account.key@ != accounts.receiving_ata.key@,
    ensures
        accounts.outcome_all()->Ok_0.amount == accounts.treasury_account.amount,
        accounts.outcome_all()->Ok_0.from@ == accounts.treasury_account.key@,
        accounts.outcome_all()->Ok_0.to@ == accounts.receiving_ata.key@,
        settle(balances, seq![accounts.outcome_all()->Ok_0]) is Some,
        settle(balances, seq![accounts.outcome_all()->Ok_0])->Some_0[accounts.treasury_account.key@] == 0,
        settle(balances, seq![accounts.outcome_all()->Ok_0])->Some_0[accounts.receiving_ata.key@]
            == balances[accounts.receiving_ata.key@] + accounts.treasury_account.amount,
{
    lemma_settle_one(balances, accounts.outcome_all()->Ok_0);
}

/// A sweep of a given amount goes through exactly where a sweep of
/// everything would and the treasury holds the amount; asked for the whole
/// balance, it is the sweep of everything.
pub proof fn lemma_sweep_amount_and_all(accounts: AdminWithdrawal, params: AdminWithdrawParams)
    ensures
        accounts.outcome(params) is Ok <==> accounts.outcome_all() is Ok && params.amount
            <= accounts.treasury_account.amount,
        params.amount == accounts.treasury_account.amount ==> accounts.outcome(params)
            == accounts.outcome_all(),
        params.amount > accounts.treasury_account.amount && accounts.outcome_all() is Ok
            ==> accounts.outcome(params) == Err::<TransferChecked, SwitchedError>(
            SwitchedError::InsufficientVaultBalance,
        ),
{
}

} // verus!
