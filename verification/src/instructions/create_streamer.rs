//! Registration of a streamer's vault.

use vstd::prelude::*;
use crate::address::{derivation_matches, derived_as, derived_at, derived_view, nonce_at};
use crate::errors::SwitchedError;
use crate::identity::Identity;
use crate::state::global_state::GlobalState;
use crate::state::streamer::Streamer;
use crate::token::{Mint, TokenAccount};

verus! {

/// What a registration does where the owner's vault record exists already.
#[derive(Clone, Copy, Debug, PartialEq, Eq, Structural)]
pub enum RegistrationPolicy {
    /// It is refused.
    CreateOnce,
    /// It succeeds and leaves the record as it is.
    CreateIfAbsent,
}

/// The nonces of the derived accounts of a registration.
#[derive(Clone, Copy, Debug, PartialEq, Eq)]
pub struct CreateStreamerBumps {
    pub streamer_state: u8,
}

/// The accounts of a registration.
#[derive(Clone, Copy, Debug, PartialEq, Eq)]
pub struct CreateStreamer {
    /// The streamer who registers.
    pub signer: Identity,
    /// Who pays for the new accounts. It has no say in what is recorded.
    pub broadcaster: Identity,
    /// Address of the vault record.
    pub streamer_state_key: Identity,
    /// The vault record as it stands: `None` before registration.
    pub streamer_state: Option<Streamer>,
    /// The token of the vault.
    pub token_mint: Mint,
    /// The vault's token account.
    pub streamer_ata: TokenAccount,
    /// Address of the platform configuration.
    pub global_state_key: Identity,
    /// The platform configuration.
    pub global_state: GlobalState,
    /// The token program under which the vault's account is held.
    pub token_program: Identity,
    /// What to do where the record exists.
    pub policy: RegistrationPolicy,
}

impl CreateStreamer {
    /// The token offered is the supported one and the vault's account
    /// holds it.
    pub open spec fn token_matches(self) -> bool {
        &&& self.token_mint.key@ == self.global_state.supported_tokens_mint@
        &&& self.streamer_ata.mint@ == self.token_mint.key@
    }

    /// The vault's account is controlled by the record's derived authority,
    /// not by the streamer.
    pub open spec fn vault_controlled(self) -> bool {
        self.streamer_ata.owner@ == self.streamer_state_key@
    }

    /// The first reason, in the order of the checks, for which the
    /// registration is refused; `None` where it goes through.
    pub open spec fn refusal(self) -> Option<SwitchedError> {
        if !self.global_state.initialized {
            Some(SwitchedError::NotInitialized)
        } else if self.streamer_state is Some {
            match self.policy {
                RegistrationPolicy::CreateOnce => Some(SwitchedError::AlreadyInitialized),
                RegistrationPolicy::CreateIfAbsent => None,
            }
        } else if !self.token_matches() {
            Some(SwitchedError::InvalidMintAddress)
        } else if !self.vault_controlled() {
            Some(SwitchedError::WrongOwner)
        } else {
            None
        }
    }

    /// The record that a registration writes.
    pub open spec fn registered(self, bumps: CreateStreamerBumps) -> Streamer {
        Streamer {
            user_wallet: self.signer,
            user_token_account: self.streamer_ata.key,
            bump: bumps.streamer_state,
        }
    }

    /// The accounts after the call: the record written where there was
    /// none and the registration goes through, everything as it was
    /// otherwise.
    pub open spec fn after(self, bumps: CreateStreamerBumps) -> CreateStreamer {
        if self.refusal() is None && self.streamer_state is None {
            CreateStreamer { streamer_state: Some(self.registered(bumps)), ..self }
        } else {
            self
        }
    }

    /// The result of the call.
    pub open spec fn outcome(self) -> Result<(), SwitchedError> {
        match self.refusal() {
            Some(error) => Err(error),
            None => Ok(()),
        }
    }

    /// The result once the addresses derived for the signer's vault record
    /// (`vault`), for the configuration (`config`) and for the token
    /// account that the record holds of the token (`vault_account`) are
    /// known. The accounts offered must stand at those addresses; the
    /// token account is looked at only where a record is to be written.
    pub open spec fn outcome_derived(
        self,
        vault: Option<(Seq<u8>, u8)>,
        config: Option<(Seq<u8>, u8)>,
        vault_account: Option<(Seq<u8>, u8)>,
    ) -> Result<(), SwitchedError> {
        if !derived_as(config, self.global_state_key@, self.global_state.bump) {
            Err(SwitchedError::NotInitialized)
        } else if !derived_at(vault, self.streamer_state_key@) {
            Err(SwitchedError::WrongOwner)
        } else if self.refusal() is Some {
            Err(self.refusal()->Some_0)
        } else if self.streamer_state is None && !derived_at(vault_account, self.streamer_ata.key@) {
            Err(SwitchedError::WrongOwner)
        } else {
            Ok(())
        }
    }

    /// The accounts after the call, once the derived addresses are known:
    /// the nonce written is the one derived for the record.
    pub open spec fn after_derived(
        self,
        vault: Option<(Seq<u8>, u8)>,
        config: Option<(Seq<u8>, u8)>,
        vault_account: Option<(Seq<u8>, u8)>,
    ) -> CreateStreamer {
        if self.outcome_derived(vault, config, vault_account) is Ok {
            self.after(CreateStreamerBumps { streamer_state: vault->Some_0.1 })
        } else {
            self
        }
    }

    fn check(&self) -> (refusal: Option<SwitchedError>)
        ensures
            refusal == self.refusal(),
    {
        if !self.global_state.initialized {
            Some(SwitchedError::NotInitialized)
        } else if self.streamer_state.is_some() {
            match self.policy {
                RegistrationPolicy::CreateOnce => Some(SwitchedError::AlreadyInitialized),
                RegistrationPolicy::CreateIfAbsent => None,
            }
        } else if self.token_mint.key != self.global_state.supported_tokens_mint || self.streamer_ata.mint
            != self.token_mint.key {
            Some(SwitchedError::InvalidMintAddress)
        } else if self.streamer_ata.owner != self.streamer_state_key {
            Some(SwitchedError::WrongOwner)
        } else {
            None
        }
    }

    /// Registers the signer's vault: records the owner, the vault's token
    /// account and the nonce. Where a record exists the policy decides:
    /// refusal, or success with the record untouched. A refusal changes
    /// nothing.
    pub fn handle_create_stream(&mut self, bumps: &CreateStreamerBumps) -> (result: Result<(), SwitchedError>)
        ensures
            result == old(self).outcome(),
            *final(self) == old(self).after(*bumps),
    {
        match self.check() {
            Some(error) => {
                return Err(error);
            },
            None => {},
        }
        if self.streamer_state.is_some() {
            return Ok(());
        }
        self.streamer_state = Some(
            Streamer {
                user_wallet: self.signer,
                user_token_account: self.streamer_ata.key,
                bump: bumps.streamer_state,
            },
        );
        Ok(())
    }

    /// Registers the signer's vault given what was derived for the
    /// signer's record (`vault`), for the configuration (`config`) and for
    /// the record's token account (`vault_account`): the accounts offered
    /// must stand at those addresses, and the nonce derived for the record
    /// is the one recorded.
    pub fn create_streamer_derived(
        &mut self,
        vault: Option<(Identity, u8)>,
        config: Option<(Identity, u8)>,
        vault_account: Option<(Identity, u8)>,
    ) -> (result: Result<(), SwitchedError>)
        ensures
            result == old(self).outcome_derived(
                derived_view(vault),
                derived_view(config),
                derived_view(vault_account),
            ),
            *final(self) == old(self).after_derived(
                derived_view(vault),
                derived_view(config),
                derived_view(vault_account),
            ),
    {
        if !derivation_matches(&config, &self.global_state_key, self.global_state.bump) {
            return Err(SwitchedError::NotInitialized);
        }
        let bump: u8 = match nonce_at(&vault, &self.streamer_state_key) {
            Some(bump) => bump,
            None => {
                return Err(SwitchedError::WrongOwner);
            },
        };
        match self.check() {
            Some(error) => {
                return Err(error);
            },
            None => {},
        }
        if self.streamer_state.is_none() && nonce_at(&vault_account, &self.streamer_ata.key).is_none() {
            return Err(SwitchedError::WrongOwner);
        }
        self.handle_create_stream(&CreateStreamerBumps { streamer_state: bump })
    }
}

/// A registration that goes through leaves a record, and a record once
/// there is never replaced: whatever the policy, a later registration
/// leaves it as it is. Under the create-once policy the later one is
/// refused, under the create-if-absent policy it succeeds.
pub proof fn lemma_register_once(accounts: CreateStreamer, first: CreateStreamerBumps, second: CreateStreamerBumps)
    requires
        accounts.outcome() is Ok,
    ensures
        accounts.after(first).streamer_state is Some,
        accounts.after(first).after(second) == accounts.after(first),
        accounts.policy == RegistrationPolicy::CreateOnce ==> accounts.after(first).outcome() == Err::<
            (),
            SwitchedError,
        >(SwitchedError::AlreadyInitialized),
        accounts.policy == RegistrationPolicy::CreateIfAbsent ==> accounts.after(first).outcome() == Ok::<
            (),
            SwitchedError,
        >(()),
{
}

/// An owner has one vault record and no more: two registrations by the
/// same signer that go through by the same derivation name the same record
/// address, and the record written names the signer as its owner and the
/// vault's token account as its account.
pub proof fn lemma_one_record_per_owner(
    first: CreateStreamer,
    second: CreateStreamer,
    vault: Option<(Seq<u8>, u8)>,
    first_config: Option<(Seq<u8>, u8)>,
    first_account: Option<(Seq<u8>, u8)>,
    second_config: Option<(Seq<u8>, u8)>,
    second_account: Option<(Seq<u8>, u8)>,
)
    requires
        first.signer@ == second.signer@,
        first.outcome_derived(vault, first_config, first_account) is Ok,
        second.outcome_derived(vault, second_config, second_account) is Ok,
    ensures
        first.streamer_state_key@ == second.streamer_state_key@,
        first.streamer_state is None ==> first.after_derived(vault, first_config, first_account).streamer_state
            == Some(
            Streamer {
                user_wallet: first.signer,
                user_token_account: first.streamer_ata.key,
                bump: vault->Some_0.1,
            },
        ),
        first.streamer_state is None ==> derived_at(first_account, first.streamer_ata.key@),
{
}

} // verus!
