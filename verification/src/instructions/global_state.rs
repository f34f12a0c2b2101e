//! Initialization of the platform configuration. It happens once.

use vstd::prelude::*;
use crate::address::{derived_at, derived_view, nonce_at};
use crate::errors::SwitchedError;
use crate::identity::Identity;
use crate::state::global_state::{GlobalState, BASIS_POINTS};
use crate::token::{Mint, TokenAccount, SUPPORTED_DECIMALS};

verus! {

/// What the caller asks for.
#[derive(Clone, Copy, Debug, PartialEq, Eq)]
pub struct InitializeParams {
    /// Platform fee in basis points. It must lie below `BASIS_POINTS`.
    pub fee_bps: u16,
}

/// The nonces of the derived accounts of an initialization.
#[derive(Clone, Copy, Debug, PartialEq, Eq)]
pub struct InitializeGlobalStateBumps {
    pub global_state: u8,
}

/// The accounts of an initialization.
#[derive(Clone, Copy, Debug, PartialEq, Eq)]
pub struct InitializeGlobalState {
    /// The caller, who becomes the administrator.
    pub signer: Identity,
    /// Address of the platform configuration.
    pub global_state_key: Identity,
    /// The platform configuration as it stands.
    pub global_state: GlobalState,
    /// The token account that is to collect the fees.
    pub treasury_account: TokenAccount,
    /// The token that the platform is to support.
    pub token_mint: Mint,
    /// The token program under which the treasury is held.
    pub token_program: Identity,
}

impl InitializeGlobalState {
    /// The treasury holds the token offered and is controlled by the
    /// configuration's derived authority.
    pub open spec fn treasury_matches(self) -> bool {
        &&& self.treasury_account.mint@ == self.token_mint.key@
        &&& self.treasury_account.owner@ == self.global_state_key@
    }

    /// The first reason, in the order of the checks, for which the
    /// initialization is refused; `None` where it goes through.
    pub open spec fn refusal(self, params: InitializeParams) -> Option<SwitchedError> {
        if self.global_state.initialized {
            Some(SwitchedError::AlreadyInitialized)
        } else if params.fee_bps >= BASIS_POINTS {
            Some(SwitchedError::BasePointError)
        } else if self.token_mint.decimals != SUPPORTED_DECIMALS {
            Some(SwitchedError::InvalidMint)
        } else if !self.treasury_matches() {
            Some(SwitchedError::TreasuryError)
        } else {
            None
        }
    }

    /// The configuration that an initialization writes.
    pub open spec fn configured(self, params: InitializeParams, bumps: InitializeGlobalStateBumps) -> GlobalState {
        GlobalState {
            admin: self.signer,
            platform_fee_bps: params.fee_bps,
            platform_fee_account: self.treasury_account.key,
            supported_tokens_mint: self.token_mint.key,
            bump: bumps.global_state,
            initialized: true,
        }
    }

    /// The accounts after the call: the configuration written where the
    /// initialization goes through, everything as it was where it is
    /// refused.
    pub open spec fn after(self, params: InitializeParams, bumps: InitializeGlobalStateBumps) -> InitializeGlobalState {
        if self.refusal(params) is None {
            InitializeGlobalState { global_state: self.configured(params, bumps), ..self }
        } else {
            self
        }
    }

    /// The result of the call.
    pub open spec fn outcome(self, params: InitializeParams) -> Result<(), SwitchedError> {
        match self.refusal(params) {
            Some(error) => Err(error),
            None => Ok(()),
        }
    }

    /// The result once the addresses derived for the configuration
    /// (`config`) and for the token account that the configuration holds of
    /// the token (`treasury`) are known. The account offered as the
    /// configuration must stand at the first, and the treasury at the second.
    pub open spec fn outcome_derived(
        self,
        params: InitializeParams,
        config: Option<(Seq<u8>, u8)>,
        treasury: Option<(Seq<u8>, u8)>,
    ) -> Result<(), SwitchedError> {
        if self.global_state.initialized {
            Err(SwitchedError::AlreadyInitialized)
        } else if !derived_at(config, self.global_state_key@) {
            Err(SwitchedError::NotInitialized)
        } else if self.refusal(params) is Some {
            Err(self.refusal(params)->Some_0)
        } else if !derived_at(treasury, self.treasury_account.key@) {
            Err(SwitchedError::TreasuryError)
        } else {
            Ok(())
        }
    }

    /// The accounts after the call, once the derived addresses are known:
    /// the nonce written is the one derived for the configuration.
    pub open spec fn after_derived(
        self,
        params: InitializeParams,
        config: Option<(Seq<u8>, u8)>,
        treasury: Option<(Seq<u8>, u8)>,
    ) -> InitializeGlobalState {
        if self.outcome_derived(params, config, treasury) is Ok {
            self.after(params, InitializeGlobalStateBumps { global_state: config->Some_0.1 })
        } else {
            self
        }
    }

    fn check(&self, params: &InitializeParams) -> (refusal: Option<SwitchedError>)
        ensures
            refusal == self.refusal(*params),
    {
        if self.global_state.initialized {
            Some(SwitchedError::AlreadyInitialized)
        } else if params.fee_bps >= BASIS_POINTS {
            Some(SwitchedError::BasePointError)
        } else if self.token_mint.decimals != SUPPORTED_DECIMALS {
            Some(SwitchedError::InvalidMint)
        } else if self.treasury_account.mint != self.token_mint.key || self.treasury_account.owner
            != self.global_state_key {
            Some(SwitchedError::TreasuryError)
        } else {
            None
        }
    }

    /// Initializes the configuration: the caller becomes the administrator,
    /// and the fee rate, the treasury, the token and the nonce are recorded.
    /// Refused where the configuration is initialized already, the fee rate
    /// is out of range, the token has another precision than the supported
    /// one, or the treasury does not fit. A refusal changes nothing.
    pub fn handle_initialize(&mut self, params: InitializeParams, bumps: &InitializeGlobalStateBumps) -> (result:
        Result<(), SwitchedError>)
        ensures
            result == old(self).outcome(params),
            *final(self) == old(self).after(params, *bumps),
            old(self).global_state.wf() ==> final(self).global_state.wf(),
    {
        match self.check(&params) {
            Some(error) => {
                return Err(error);
            },
            None => {},
        }
        self.global_state = GlobalState {
            admin: self.signer,
            platform_fee_bps: params.fee_bps,
            platform_fee_account: self.treasury_account.key,
            supported_tokens_mint: self.token_mint.key,
            bump: bumps.global_state,
            initialized: true,
        };
        Ok(())
    }

    /// Initializes the configuration given what was derived for it
    /// (`config`) and for its treasury (`treasury`): the accounts offered
    /// must stand at those addresses, and the nonce derived for the
    /// configuration is the one recorded.
    pub fn initialize_derived(
        &mut self,
        params: InitializeParams,
        config: Option<(Identity, u8)>,
        treasury: Option<(Identity, u8)>,
    ) -> (result: Result<(), SwitchedError>)
        ensures
            result == old(self).outcome_derived(params, derived_view(config), derived_view(treasury)),
            *final(self) == old(self).after_derived(params, derived_view(config), derived_view(treasury)),
            old(self).global_state.wf() ==> final(self).global_state.wf(),
    {
        if self.global_state.initialized {
            return Err(SwitchedError::AlreadyInitialized);
        }
        let bump: u8 = match nonce_at(&config, &self.global_state_key) {
            Some(bump) => bump,
            None => {
                return Err(SwitchedError::NotInitialized);
            },
        };
        match self.check(&params) {
            Some(error) => {
                return Err(error);
            },
            None => {},
        }
        if nonce_at(&treasury, &self.treasury_account.key).is_none() {
            return Err(SwitchedError::TreasuryError);
        }
        self.handle_initialize(params, &InitializeGlobalStateBumps { global_state: bump })
    }
}

/// Of two initializations in a row of which the first goes through, the
/// second is refused as already initialized, whatever it asks for, and
/// leaves the accounts as the first left them.
pub proof fn lemma_initialize_only_once(
    accounts: InitializeGlobalState,
    first: InitializeParams,
    first_bumps: InitializeGlobalStateBumps,
    second: InitializeParams,
    second_bumps: InitializeGlobalStateBumps,
)
    requires
        accounts.outcome(first) is Ok,
    ensures
        accounts.after(first, first_bumps).outcome(second) == Err::<(), SwitchedError>(
            SwitchedError::AlreadyInitialized,
        ),
        accounts.after(first, first_bumps).after(second, second_bumps) == accounts.after(first, first_bumps),
{
}

/// The same of two initializations that go by the derived address: once
/// the first has gone through, the second is refused as already
/// initialized, whatever is derived for it, and changes nothing.
pub proof fn lemma_initialize_derived_only_once(
    accounts: InitializeGlobalState,
    first: InitializeParams,
    first_config: Option<(Seq<u8>, u8)>,
    first_treasury: Option<(Seq<u8>, u8)>,
    second: InitializeParams,
    second_config: Option<(Seq<u8>, u8)>,
    second_treasury: Option<(Seq<u8>, u8)>,
)
    requires
        accounts.outcome_derived(first, first_config, first_treasury) is Ok,
    ensures
        accounts.after_derived(first, first_config, first_treasury).outcome_derived(
            second,
            second_config,
            second_treasury,
        ) == Err::<(), SwitchedError>(SwitchedError::AlreadyInitialized),
        accounts.after_derived(first, first_config, first_treasury).after_derived(
            second,
            second_config,
            second_treasury,
        ) == accounts.after_derived(first, first_config, first_treasury),
{
}

/// An initialized configuration is never written again: any call on it is
/// refused and leaves it as it was.
pub proof fn lemma_initialized_stays(
    accounts: InitializeGlobalState,
    params: InitializeParams,
    bumps: InitializeGlobalStateBumps,
)
    requires
        accounts.global_state.initialized,
    ensures
        accounts.outcome(params) == Err::<(), SwitchedError>(SwitchedError::AlreadyInitialized),
        accounts.after(params, bumps) == accounts,
{
}

} // verus!
