//! Withdrawal: the owner of a vault takes an amount out of it. The platform
//! keeps its fee and the fee component that the caller supplies; the rest is
//! paid out.

use vstd::prelude::*;
use crate::address::{derivation_matches, derived_as, derived_view};
use crate::errors::SwitchedError;
use crate::identity::Identity;
use crate::instructions::tip_streamer::{TipParams, TipStreamer};
use crate::ledger::{apply_transfer, lemma_settle_one, lemma_settle_two, settle, transfer_accepted};
use crate::state::global_state::{GlobalState, BASIS_POINTS};
use crate::state::streamer::Streamer;
use crate::token::{Authority, Mint, TokenAccount, TransferChecked};

verus! {

/// The platform's share of `amount` at `fee_bps` basis points, rounded down.
pub open spec fn platform_fee(amount: u64, fee_bps: u16) -> int {
    (amount * fee_bps) / (BASIS_POINTS as int)
}

/// What the caller asks for.
#[derive(Clone, Copy, Debug, PartialEq, Eq)]
pub struct WithdrawParams {
    /// Fee component supplied from outside, kept by the platform on top of
    /// its own fee.
    pub gas_in_usdc: u64,
    /// Amount to take out of the vault.
    pub amount: u64,
}

/// The accounts of a withdrawal.
#[derive(Clone, Copy, Debug, PartialEq, Eq)]
pub struct Withdraw {
    /// The caller.
    pub signer: Identity,
    /// Where the payout goes.
    pub receiving_ata: TokenAccount,
    /// The vault's token account.
    pub streamer_ata: TokenAccount,
    /// The token of the transfer.
    pub token_mint: Mint,
    /// Address of the platform configuration.
    pub global_state_key: Identity,
    /// The platform configuration.
    pub global_state: GlobalState,
    /// The treasury.
    pub treasury_account: TokenAccount,
    /// Address of the vault record.
    pub streamer_state_key: Identity,
    /// The vault record.
    pub streamer_state: Streamer,
}

/// The two legs of a withdrawal, in the order in which the ledger has to
/// execute them, as one unit.
#[derive(Clone, Copy, Debug, PartialEq, Eq)]
pub struct WithdrawTransfers {
    /// Vault to treasury: the outside fee component plus the platform fee.
    pub to_treasury: TransferChecked,
    /// Vault to destination: the payout.
    pub to_user: TransferChecked,
}

impl WithdrawTransfers {
    /// The legs as the list handed to the ledger.
    pub open spec fn legs(self) -> Seq<TransferChecked> {
        seq![self.to_treasury, self.to_user]
    }
}

impl Withdraw {
    /// The caller is the owner that the vault record names.
    pub open spec fn authorized(self) -> bool {
        self.signer@ == self.streamer_state.user_wallet@
    }

    /// The token offered, the vault and the destination are all of the
    /// supported token.
    pub open spec fn token_matches(self) -> bool {
        &&& self.token_mint.key@ == self.global_state.supported_tokens_mint@
        &&& self.receiving_ata.mint@ == self.token_mint.key@
        &&& self.streamer_ata.mint@ == self.token_mint.key@
    }

    /// The token account is the one that the vault record names, and the
    /// record's derived authority controls it.
    pub open spec fn vault_bound(self) -> bool {
        &&& self.streamer_ata.key@ == self.streamer_state.user_token_account@
        &&& self.streamer_ata.owner@ == self.streamer_state_key@
    }

    /// The treasury is the one that the configuration names, holds the
    /// supported token and is controlled by the configuration's authority.
    pub open spec fn treasury_matches(self) -> bool {
        &&& self.treasury_account.key@ == self.global_state.platform_fee_account@
        &&& self.treasury_account.mint@ == self.token_mint.key@
        &&& self.treasury_account.owner@ == self.global_state_key@
    }

    /// The first reason, in the order of the checks, for which the
    /// withdrawal is refused; `None` where it goes through.
    pub open spec fn refusal(self, params: WithdrawParams) -> Option<SwitchedError> {
        let fee = platform_fee(params.amount, self.global_state.platform_fee_bps);
        if !self.authorized() {
            Some(SwitchedError::Unauthorized)
        } else if !self.global_state.initialized {
            Some(SwitchedError::NotInitialized)
        } else if !self.token_matches() {
            Some(SwitchedError::InvalidMintAddress)
        } else if !self.vault_bound() {
            Some(SwitchedError::WrongOwner)
        } else if !self.treasury_matches() {
            Some(SwitchedError::TreasuryError)
        } else if params.amount > self.streamer_ata.amount {
            Some(SwitchedError::InsufficientVaultBalance)
        } else if params.amount * self.global_state.platform_fee_bps > u64::MAX {
            Some(SwitchedError::MultiplicationOverflow)
        } else if params.gas_in_usdc + fee > params.amount {
            Some(SwitchedError::InvalidAmount)
        } else {
            None
        }
    }

    /// A transfer of `amount` out of the vault into `to`, signed by the
    /// vault record through its derivation.
    pub open spec fn vault_transfer(self, to: Identity, amount: u64) -> TransferChecked {
        TransferChecked {
            from: self.streamer_ata.key,
            mint: self.token_mint.key,
            to,
            authority: self.streamer_state_key,
            signer: Authority::Vault { owner: self.signer, bump: self.streamer_state.bump },
            amount,
            decimals: self.token_mint.decimals,
        }
    }

    /// The two legs of a withdrawal that is not refused.
    pub open spec fn transfers(self, params: WithdrawParams) -> WithdrawTransfers {
        let fee = platform_fee(params.amount, self.global_state.platform_fee_bps);
        WithdrawTransfers {
            to_treasury: self.vault_transfer(self.treasury_account.key, (params.gas_in_usdc + fee) as u64),
            to_user: self.vault_transfer(self.receiving_ata.key, (params.amount - params.gas_in_usdc - fee) as u64),
        }
    }

    /// What a withdrawal comes to: the refusal, or the two legs.
    pub open spec fn outcome(self, params: WithdrawParams) -> Result<WithdrawTransfers, SwitchedError> {
        match self.refusal(params) {
            Some(error) => Err(error),
            None => Ok(self.transfers(params)),
        }
    }

    /// What a withdrawal comes to once the addresses derived for the
    /// caller's vault record and for the configuration are known.
    pub open spec fn outcome_derived(
        self,
        params: WithdrawParams,
        vault: Option<(Seq<u8>, u8)>,
        config: Option<(Seq<u8>, u8)>,
    ) -> Result<WithdrawTransfers, SwitchedError> {
        if !derived_as(vault, self.streamer_state_key@, self.streamer_state.bump) {
            Err(SwitchedError::WrongOwner)
        } else if !self.authorized() {
            Err(SwitchedError::Unauthorized)
        } else if !derived_as(config, self.global_state_key@, self.global_state.bump) {
            Err(SwitchedError::NotInitialized)
        } else {
            self.outcome(params)
        }
    }

    fn vault_transfer_to(&self, to: Identity, amount: u64) -> (transfer: TransferChecked)
        ensures
            transfer == self.vault_transfer(to, amount),
    {
        TransferChecked {
            from: self.streamer_ata.key,
            mint: self.token_mint.key,
            to,
            authority: self.streamer_state_key,
            signer: Authority::Vault { owner: self.signer, bump: self.streamer_state.bump },
            amount,
            decimals: self.token_mint.decimals,
        }
    }

    /// Decides a withdrawal. The checks run in a fixed order and the first
    /// that fails names the error. Where all pass, the result holds the
    /// treasury leg (outside fee component plus platform fee) and the payout
    /// leg (the rest); together they take exactly the amount asked for out
    /// of the vault.
    pub fn handle_withdraw(&self, params: WithdrawParams) -> (result: Result<WithdrawTransfers, SwitchedError>)
        ensures
            result == self.outcome(params),
    {
        if self.signer != self.streamer_state.user_wallet {
            return Err(SwitchedError::Unauthorized);
        }
        if !self.global_state.initialized {
            return Err(SwitchedError::NotInitialized);
        }
        if self.token_mint.key != self.global_state.supported_tokens_mint
            || self.receiving_ata.mint != self.token_mint.key
            || self.streamer_ata.mint != self.token_mint.key {
            return Err(SwitchedError::InvalidMintAddress);
        }
        if self.streamer_ata.key != self.streamer_state.user_token_account
            || self.streamer_ata.owner != self.streamer_state_key {
            return Err(SwitchedError::WrongOwner);
        }
        if self.treasury_account.key != self.global_state.platform_fee_account
            || self.treasury_account.mint != self.token_mint.key
            || self.treasury_account.owner != self.global_state_key {
            return Err(SwitchedError::TreasuryError);
        }
        if params.amount > self.streamer_ata.amount {
            return Err(SwitchedError::InsufficientVaultBalance);
        }
        let product: u64 = match params.amount.checked_mul(self.global_state.platform_fee_bps as u64) {
            Some(product) => product,
            None => {
                return Err(SwitchedError::MultiplicationOverflow);
            },
        };
        let fee: u64 = match product.checked_div(BASIS_POINTS as u64) {
            Some(fee) => fee,
            None => {
                return Err(SwitchedError::DivisionOverflow);
            },
        };
        let kept: u64 = match params.gas_in_usdc.checked_add(fee) {
            Some(kept) => kept,
            None => {
                return Err(SwitchedError::InvalidAmount);
            },
        };
        let payout: u64 = match params.amount.checked_sub(kept) {
            Some(payout) => payout,
            None => {
                return Err(SwitchedError::InvalidAmount);
            },
        };
        Ok(
            WithdrawTransfers {
                to_treasury: self.vault_transfer_to(self.treasury_account.key, kept),
                to_user: self.vault_transfer_to(self.receiving_ata.key, payout),
            },
        )
    }

    /// Decides a withdrawal given the addresses derived for the caller's
    /// vault record (`vault`) and for the configuration (`config`): the
    /// record offered must be the caller's own, and the configuration the
    /// program's own, before anything else is looked at.
    pub fn withdraw_derived(
        &self,
        params: WithdrawParams,
        vault: Option<(Identity, u8)>,
        config: Option<(Identity, u8)>,
    ) -> (result: Result<WithdrawTransfers, SwitchedError>)
        ensures
            result == self.outcome_derived(params, derived_view(vault), derived_view(config)),
    {
        if !derivation_matches(&vault, &self.streamer_state_key, self.streamer_state.bump) {
            Err(SwitchedError::WrongOwner)
        } else if self.signer != self.streamer_state.user_wallet {
            Err(SwitchedError::Unauthorized)
        } else if !derivation_matches(&config, &self.global_state_key, self.global_state.bump) {
            Err(SwitchedError::NotInitialized)
        } else {
            self.handle_withdraw(params)
        }
    }
}

/// The transfers that an outcome hands to the ledger: the two legs of a
/// withdrawal that goes through, none of one that is refused.
pub open spec fn legs_of(outcome: Result<WithdrawTransfers, SwitchedError>) -> Seq<TransferChecked> {
    match outcome {
        Ok(transfers) => transfers.legs(),
        Err(_) => Seq::empty(),
    }
}

/// The platform fee is never negative, and at a rate of at most the whole
/// it never exceeds the amount.
pub proof fn lemma_fee_within_amount(amount: u64, fee_bps: u16)
    ensures
        0 <= platform_fee(amount, fee_bps),
        fee_bps <= BASIS_POINTS ==> platform_fee(amount, fee_bps) <= amount,
        fee_bps == 0 ==> platform_fee(amount, fee_bps) == 0,
{
    let product = amount * fee_bps;
    assert(0 <= product) by (nonlinear_arith)
        requires
            product == amount * fee_bps,
    ;
    if fee_bps <= BASIS_POINTS {
        assert(product <= amount * 10000) by (nonlinear_arith)
            requires
                product == amount * fee_bps,
                fee_bps <= 10000,
        ;
    }
    if fee_bps == 0 {
        assert(product == 0) by (nonlinear_arith)
            requires
                product == amount * fee_bps,
                fee_bps == 0,
        ;
    }
}

/// The two legs of a withdrawal that goes through add up to the amount
/// asked for, and neither is more than it.
pub proof fn lemma_legs_add_up(accounts: Withdraw, params: WithdrawParams)
    requires
        accounts.outcome(params) is Ok,
    ensures
        accounts.outcome(params)->Ok_0.to_treasury.amount + accounts.outcome(params)->Ok_0.to_user.amount
            == params.amount,
        accounts.outcome(params)->Ok_0.to_treasury.amount == params.gas_in_usdc + platform_fee(
            params.amount,
            accounts.global_state.platform_fee_bps,
        ),
        params.amount <= accounts.streamer_ata.amount,
{
    lemma_fee_within_amount(params.amount, accounts.global_state.platform_fee_bps);
}

/// The division by the fixed divisor is always defined: no withdrawal is
/// refused for it.
pub proof fn lemma_division_is_defined(
    accounts: Withdraw,
    params: WithdrawParams,
    vault: Option<(Seq<u8>, u8)>,
    config: Option<(Seq<u8>, u8)>,
)
    ensures
        accounts.outcome(params) != Err::<WithdrawTransfers, SwitchedError>(SwitchedError::DivisionOverflow),
        accounts.outcome_derived(params, vault, config) != Err::<WithdrawTransfers, SwitchedError>(
            SwitchedError::DivisionOverflow,
        ),
{
}

/// With a fee rate below the whole, and fees that the amount covers, a
/// withdrawal by the owner from a vault that holds the amount goes through.
/// It pays out the amount less the outside fee component and the platform
/// fee, and sends the treasury the rest of the amount. On a ledger that
/// agrees with the vault's snapshot, in which the vault is neither the
/// treasury nor the destination, the two legs settle and the vault loses
/// exactly the amount. The accounts must pass the checks that come before
/// the arithmetic, and the fee product must fit in 64 bits: otherwise the
/// withdrawal is refused.
pub proof fn lemma_withdraw_splits_amount(accounts: Withdraw, params: WithdrawParams, balances: Map<Seq<u8>, nat>)
    requires
        accounts.global_state.platform_fee_bps < BASIS_POINTS,
        params.gas_in_usdc + platform_fee(params.amount, accounts.global_state.platform_fee_bps)
            <= params.amount,
        accounts.authorized(),
        accounts.global_state.initialized,
        accounts.token_matches(),
        accounts.vault_bound(),
        accounts.treasury_matches(),
        params.amount <= accounts.streamer_ata.amount,
        params.amount * accounts.global_state.platform_fee_bps <= u64::MAX,
        balances.dom().contains(accounts.streamer_ata.key@),
        balances.dom().contains(accounts.treasury_account.key@),
        balances.dom().contains(accounts.receiving_ata.key@),
        balances[accounts.streamer_ata.key@] == accounts.streamer_ata.amount,
        accounts.streamer_ata.key@ != accounts.treasury_account.key@,
        accounts.streamer_ata.key@ != accounts.receiving_ata.key@,
    ensures
        accounts.outcome(params) == Ok::<WithdrawTransfers, SwitchedError>(accounts.transfers(params)),
        accounts.transfers(params).to_user.amount == params.amount - params.gas_in_usdc - platform_fee(
            params.amount,
            accounts.global_state.platform_fee_bps,
        ),
        accounts.transfers(params).to_treasury.amount == params.amount - accounts.transfers(
            params,
        ).to_user.amount,
        settle(balances, legs_of(accounts.outcome(params))) is Some,
        settle(balances, legs_of(accounts.outcome(params)))->Some_0[accounts.streamer_ata.key@]
            == balances[accounts.streamer_ata.key@] - params.amount,
{
    lemma_fee_within_amount(params.amount, accounts.global_state.platform_fee_bps);
    let plan = accounts.transfers(params);
    lemma_settle_two(balances, plan.to_treasury, plan.to_user);
    let vault = accounts.streamer_ata.key@;
    let after_first = apply_transfer(balances, plan.to_treasury);
    assert(after_first[vault] == balances[vault] - plan.to_treasury.amount);
    assert(after_first.dom().contains(accounts.receiving_ata.key@));
    assert(transfer_accepted(after_first, plan.to_user));
}

/// A withdrawal by anyone but the owner that the vault record names is
/// refused as unauthorized, whatever else holds; with the derived addresses
/// taken into account it is refused as unauthorized or as aimed at a vault
/// that is not the caller's. No transfer is named, so no balance changes.
pub proof fn lemma_withdraw_needs_owner(
    accounts: Withdraw,
    params: WithdrawParams,
    vault: Option<(Seq<u8>, u8)>,
    config: Option<(Seq<u8>, u8)>,
    balances: Map<Seq<u8>, nat>,
)
    requires
        accounts.signer@ != accounts.streamer_state.user_wallet@,
    ensures
        accounts.outcome(params) == Err::<WithdrawTransfers, SwitchedError>(SwitchedError::Unauthorized),
        accounts.outcome_derived(params, vault, config) == Err::<WithdrawTransfers, SwitchedError>(
            SwitchedError::Unauthorized,
        ) || accounts.outcome_derived(params, vault, config) == Err::<WithdrawTransfers, SwitchedError>(
            SwitchedError::WrongOwner,
        ),
        settle(balances, legs_of(accounts.outcome(params))) == Some(balances),
        settle(balances, legs_of(accounts.outcome_derived(params, vault, config))) == Some(balances),
{
}

/// A withdrawal of more than the vault holds, by its owner and on accounts
/// that pass the checks before it, is refused for want of balance. No
/// transfer is named, so no balance changes.
pub proof fn lemma_withdraw_needs_balance(accounts: Withdraw, params: WithdrawParams, balances: Map<Seq<u8>, nat>)
    requires
        params.amount > accounts.streamer_ata.amount,
        accounts.authorized(),
        accounts.global_state.initialized,
        accounts.token_matches(),
        accounts.vault_bound(),
        accounts.treasury_matches(),
    ensures
        accounts.outcome(params) == Err::<WithdrawTransfers, SwitchedError>(
            SwitchedError::InsufficientVaultBalance,
        ),
        settle(balances, legs_of(accounts.outcome(params))) == Some(balances),
{
}

/// A refused withdrawal names no transfer and so changes no balance.
pub proof fn lemma_refused_withdrawal_moves_nothing(
    outcome: Result<WithdrawTransfers, SwitchedError>,
    balances: Map<Seq<u8>, nat>,
)
    requires
        outcome is Err,
    ensures
        legs_of(outcome) == Seq::<TransferChecked>::empty(),
        settle(balances, legs_of(outcome)) == Some(balances),
{
}

/// Funds leave a vault only on the word of the authority derived for its
/// owner: where a withdrawal goes through by the derived addresses, both
/// legs come out of the vault that the record names, are signed through
/// the derivation for the caller with the record's nonce, and their
/// authority is the address derived for the caller.
pub proof fn lemma_withdrawal_signed_by_derived_authority(
    accounts: Withdraw,
    params: WithdrawParams,
    vault: Option<(Seq<u8>, u8)>,
    config: Option<(Seq<u8>, u8)>,
)
    requires
        accounts.outcome_derived(params, vault, config) is Ok,
    ensures
        accounts.outcome_derived(params, vault, config) == accounts.outcome(params),
        vault == Some((accounts.outcome(params)->Ok_0.to_user.authority@, accounts.streamer_state.bump)),
        accounts.outcome(params)->Ok_0.to_user.signer == (Authority::Vault {
            owner: accounts.signer,
            bump: accounts.streamer_state.bump,
        }),
        accounts.outcome(params)->Ok_0.to_treasury.signer == accounts.outcome(params)->Ok_0.to_user.signer,
        accounts.outcome(params)->Ok_0.to_treasury.authority == accounts.outcome(
            params,
        )->Ok_0.to_user.authority,
        accounts.outcome(params)->Ok_0.to_user.from@ == accounts.streamer_state.user_token_account@,
        accounts.outcome(params)->Ok_0.to_treasury.from@ == accounts.streamer_state.user_token_account@,
        accounts.outcome(params)->Ok_0.to_treasury.to@ == accounts.global_state.platform_fee_account@,
        accounts.signer@ == accounts.streamer_state.user_wallet@,
{
}

/// Deposit, then withdraw it all at no fee: a deposit into an empty vault,
/// followed by a withdrawal of the same amount with no outside fee
/// component under a fee rate of zero, pays the whole amount out and
/// leaves the vault empty again. Both operations must pass their checks on
/// accounts; the withdrawal sees the vault as the deposit left it; the
/// vault is another account than the depositor's, the treasury and the
/// destination.
pub proof fn lemma_deposit_then_withdraw(
    deposit: TipStreamer,
    tip: TipParams,
    accounts: Withdraw,
    balances: Map<Seq<u8>, nat>,
)
    requires
        deposit.outcome(tip) is Ok,
        transfer_accepted(balances, deposit.transfer(tip)),
        balances[deposit.streamer_ata.key@] == 0,
        deposit.signer_ata.key@ != deposit.streamer_ata.key@,
        accounts.streamer_ata.key@ == deposit.streamer_ata.key@,
        accounts.streamer_ata.amount == tip.amount,
        accounts.global_state.platform_fee_bps == 0,
        accounts.authorized(),
        accounts.global_state.initialized,
        accounts.token_matches(),
        accounts.vault_bound(),
        accounts.treasury_matches(),
        balances.dom().contains(accounts.treasury_account.key@),
        balances.dom().contains(accounts.receiving_ata.key@),
        accounts.streamer_ata.key@ != accounts.treasury_account.key@,
        accounts.streamer_ata.key@ != accounts.receiving_ata.key@,
    ensures
        settle(balances, seq![deposit.transfer(tip)]) is Some,
        settle(balances, seq![deposit.transfer(tip)])->Some_0[accounts.streamer_ata.key@] == tip.amount,
        accounts.outcome(WithdrawParams { gas_in_usdc: 0, amount: tip.amount }) is Ok,
        accounts.outcome(WithdrawParams { gas_in_usdc: 0, amount: tip.amount })->Ok_0.to_user.amount
            == tip.amount,
        accounts.outcome(WithdrawParams { gas_in_usdc: 0, amount: tip.amount })->Ok_0.to_treasury.amount == 0,
        settle(
            settle(balances, seq![deposit.transfer(tip)])->Some_0,
            legs_of(accounts.outcome(WithdrawParams { gas_in_usdc: 0, amount: tip.amount })),
        ) is Some,
        settle(
            settle(balances, seq![deposit.transfer(tip)])->Some_0,
            legs_of(accounts.outcome(WithdrawParams { gas_in_usdc: 0, amount: tip.amount })),
        )->Some_0[accounts.streamer_ata.key@] == 0,
{
    let moved = deposit.transfer(tip);
    lemma_settle_one(balances, moved);
    let funded = apply_transfer(balances, moved);
    assert(funded.dom() =~= balances.dom());
    let params = WithdrawParams { gas_in_usdc: 0, amount: tip.amount };
    lemma_fee_within_amount(params.amount, accounts.global_state.platform_fee_bps);
    assert(params.amount * accounts.global_state.platform_fee_bps == 0) by (nonlinear_arith)
        requires
            accounts.global_state.platform_fee_bps == 0,
    ;
    lemma_withdraw_splits_amount(accounts, params, funded);
}

} // verus!
