//! Deposit: anyone tips a streamer by moving tokens into the streamer's
//! vault. No fee is taken.

use vstd::prelude::*;
use crate::address::{derivation_matches, derived_as, derived_view};
use crate::errors::SwitchedError;
use crate::identity::Identity;
use crate::ledger::{lemma_settle_one, settle, transfer_accepted};
use crate::state::global_state::GlobalState;
use crate::state::streamer::Streamer;
use crate::token::{Authority, Mint, TokenAccount, TransferChecked};

verus! {

/// What the caller asks for.
#[derive(Clone, Copy, Debug, PartialEq, Eq)]
pub struct TipParams {
    /// Amount to deposit. It must not be zero.
    pub amount: u64,
    /// The streamer whose vault receives it.
    pub streamer_account: Identity,
}

/// The accounts of a deposit.
#[derive(Clone, Copy, Debug, PartialEq, Eq)]
pub struct TipStreamer {
    /// The depositor.
    pub signer: Identity,
    /// The depositor's token account, the source.
    pub signer_ata: TokenAccount,
    /// The vault's token account, the destination.
    pub streamer_ata: TokenAccount,
    /// The token of the transfer.
    pub token_mint: Mint,
    /// Address of the vault record.
    pub streamer_state_key: Identity,
    /// The vault record.
    pub streamer_state: Streamer,
    /// Address of the platform configuration.
    pub global_state_key: Identity,
    /// The platform configuration.
    pub global_state: GlobalState,
}

impl TipStreamer {
    /// The token offered, the source and the destination are all of the
    /// supported token.
    pub open spec fn token_matches(self) -> bool {
        &&& self.token_mint.key@ == self.global_state.supported_tokens_mint@
        &&& self.signer_ata.mint@ == self.token_mint.key@
        &&& self.streamer_ata.mint@ == self.token_mint.key@
    }

    /// The depositor controls the source.
    pub open spec fn source_controlled(self) -> bool {
        self.signer_ata.owner@ == self.signer@
    }

    /// The destination is the vault of the streamer named: the record is
    /// that streamer's, names the token account, and its derived authority
    /// controls it.
    pub open spec fn destination_is_vault_of(self, streamer: Identity) -> bool {
        &&& self.streamer_state.user_wallet@ == streamer@
        &&& self.streamer_ata.key@ == self.streamer_state.user_token_account@
        &&& self.streamer_ata.owner@ == self.streamer_state_key@
    }

    /// The first reason, in the order of the checks, for which the deposit
    /// is refused; `None` where it goes through.
    pub open spec fn refusal(self, params: TipParams) -> Option<SwitchedError> {
        if params.amount == 0 {
            Some(SwitchedError::InvalidAmount)
        } else if !self.global_state.initialized {
            Some(SwitchedError::NotInitialized)
        } else if !self.token_matches() {
            Some(SwitchedError::InvalidMintAddress)
        } else if !self.source_controlled() {
            Some(SwitchedError::Unauthorized)
        } else if !self.destination_is_vault_of(params.streamer_account) {
            Some(SwitchedError::WrongOwner)
        } else {
            None
        }
    }

    /// The one transfer of a deposit: the whole amount, from the
    /// depositor's account into the vault, signed by the depositor.
    pub open spec fn transfer(self, params: TipParams) -> TransferChecked {
        TransferChecked {
            from: self.signer_ata.key,
            mint: self.token_mint.key,
            to: self.streamer_ata.key,
            authority: self.signer,
            signer: Authority::Wallet,
            amount: params.amount,
            decimals: self.token_mint.decimals,
        }
    }

    /// What a deposit comes to: the refusal, or the transfer.
    pub open spec fn outcome(self, params: TipParams) -> Result<TransferChecked, SwitchedError> {
        match self.refusal(params) {
            Some(error) => Err(error),
            None => Ok(self.transfer(params)),
        }
    }

    /// What a deposit comes to once the addresses derived for the vault
    /// record of the streamer named and for the configuration are known.
    pub open spec fn outcome_derived(
        self,
        params: TipParams,
        vault: Option<(Seq<u8>, u8)>,
        config: Option<(Seq<u8>, u8)>,
    ) -> Result<TransferChecked, SwitchedError> {
        if params.amount == 0 {
            Err(SwitchedError::InvalidAmount)
        } else if !derived_as(config, self.global_state_key@, self.global_state.bump) {
            Err(SwitchedError::NotInitialized)
        } else if !derived_as(vault, self.streamer_state_key@, self.streamer_state.bump) {
            Err(SwitchedError::WrongOwner)
        } else {
            self.outcome(params)
        }
    }

    /// Decides a deposit. A zero amount is refused first; then the
    /// configuration, the token, the control of the source and the
    /// destination are checked in that order. Where all pass, the result is
    /// one transfer of the whole amount into the vault.
    pub fn handle_tip(&self, params: TipParams) -> (result: Result<TransferChecked, SwitchedError>)
        ensures
            result == self.outcome(params),
    {
        if params.amount == 0 {
            return Err(SwitchedError::InvalidAmount);
        }
        if !self.global_state.initialized {
            return Err(SwitchedError::NotInitialized);
        }
        if self.token_mint.key != self.global_state.supported_tokens_mint || self.signer_ata.mint
            != self.token_mint.key || self.streamer_ata.mint != self.token_mint.key {
            return Err(SwitchedError::InvalidMintAddress);
        }
        if self.signer_ata.owner != self.signer {
            return Err(SwitchedError::Unauthorized);
        }
        if self.streamer_state.user_wallet != params.streamer_account || self.streamer_ata.key
            != self.streamer_state.user_token_account || self.streamer_ata.owner != self.streamer_state_key {
            return Err(SwitchedError::WrongOwner);
        }
        Ok(
            TransferChecked {
                from: self.signer_ata.key,
                mint: self.token_mint.key,
                to: self.streamer_ata.key,
                authority: self.signer,
                signer: Authority::Wallet,
                amount: params.amount,
                decimals: self.token_mint.decimals,
            },
        )
    }

    /// Decides a deposit given the addresses derived for the vault record
    /// of the streamer named (`vault`) and for the configuration
    /// (`config`): the accounts offered must stand at those addresses.
    pub fn tip_derived(&self, params: TipParams, vault: Option<(Identity, u8)>, config: Option<(Identity, u8)>) -> (result:
        Result<TransferChecked, SwitchedError>)
        ensures
            result == self.outcome_derived(params, derived_view(vault), derived_view(config)),
    {
        if params.amount == 0 {
            Err(SwitchedError::InvalidAmount)
        } else if !derivation_matches(&config, &self.global_state_key, self.global_state.bump) {
            Err(SwitchedError::NotInitialized)
        } else if !derivation_matches(&vault, &self.streamer_state_key, self.streamer_state.bump) {
            Err(SwitchedError::WrongOwner)
        } else {
            self.handle_tip(params)
        }
    }
}

/// A deposit that goes through moves the whole amount and takes no fee:
/// on a ledger where the depositor's account covers it and is another
/// account than the vault, the one transfer settles, the vault gains
/// exactly the amount and the depositor's account loses exactly the amount.
pub proof fn lemma_deposit_credits_vault(accounts: TipStreamer, params: TipParams, balances: Map<Seq<u8>, nat>)
    requires
        accounts.outcome(params) is Ok,
        transfer_accepted(balances, accounts.transfer(params)),
        accounts.signer_ata.key@ != accounts.streamer_ata.key@,
    ensures
        accounts.outcome(params) == Ok::<TransferChecked, SwitchedError>(accounts.transfer(params)),
        accounts.transfer(params).amount == params.amount,
        settle(balances, seq![accounts.transfer(params)]) is Some,
        settle(balances, seq![accounts.transfer(params)])->Some_0[accounts.streamer_ata.key@]
            == balances[accounts.streamer_ata.key@] + params.amount,
        settle(balances, seq![accounts.transfer(params)])->Some_0[accounts.signer_ata.key@]
            == balances[accounts.signer_ata.key@] - params.amount,
{
    lemma_settle_one(balances, accounts.transfer(params));
}

/// A deposit of nothing is refused as an invalid amount, whatever the
/// accounts.
pub proof fn lemma_deposit_needs_amount(accounts: TipStreamer, params: TipParams, vault: Option<(Seq<u8>, u8)>, config: Option<(Seq<u8>, u8)>)
    requires
        params.amount == 0,
    ensures
        accounts.outcome(params) == Err::<TransferChecked, SwitchedError>(SwitchedError::InvalidAmount),
        accounts.outcome_derived(params, vault, config) == Err::<TransferChecked, SwitchedError>(
            SwitchedError::InvalidAmount,
        ),
{
}

} // verus!
