//! Plain snapshots of what the token ledger holds, and the delegated
//! transfers that the platform asks it to execute.

use vstd::prelude::*;
use crate::address::{global_state_label, global_state_label_bytes, seeds_view, user_label, user_label_bytes};
use crate::identity::Identity;

verus! {

/// Decimal precision of the one supported token.
pub const SUPPORTED_DECIMALS: u8 = 6;

/// A token-holding account as the ledger reports it.
#[derive(Clone, Copy, Debug, PartialEq, Eq)]
pub struct TokenAccount {
    /// Address of the account.
    pub key: Identity,
    /// Token that the account is denominated in.
    pub mint: Identity,
    /// Identity that controls the account.
    pub owner: Identity,
    /// Balance at the time of the snapshot.
    pub amount: u64,
}

/// A token type: its address and its decimal precision.
#[derive(Clone, Copy, Debug, PartialEq, Eq)]
pub struct Mint {
    pub key: Identity,
    pub decimals: u8,
}

/// How a transfer is authorized.
#[derive(Clone, Copy, Debug, PartialEq, Eq)]
pub enum Authority {
    /// The authority signs the request itself.
    Wallet,
    /// The vault record of `owner` signs through its derivation.
    Vault { owner: Identity, bump: u8 },
    /// The platform configuration signs through its derivation.
    Config { bump: u8 },
}

impl Authority {
    /// The seeds that reconstruct the derived authority: none for a wallet;
    /// otherwise the label, the owner where there is one, and the nonce.
    pub open spec fn seeds(self) -> Seq<Seq<u8>> {
        match self {
            Authority::Wallet => Seq::empty(),
            Authority::Vault { owner, bump } => seq![user_label(), owner@, seq![bump]],
            Authority::Config { bump } => seq![global_state_label(), seq![bump]],
        }
    }

    /// The signer seeds to hand to the ledger with the transfer.
    pub fn signer_seeds(&self) -> (out: Vec<Vec<u8>>)
        ensures
            seeds_view(out@) == self.seeds(),
    {
        let mut out: Vec<Vec<u8>> = Vec::new();
        match self {
            Authority::Wallet => {},
            Authority::Vault { owner, bump } => {
                out.push(user_label_bytes());
                out.push(owner.to_vec());
                let nonce: Vec<u8> = vec![*bump];
                assert(nonce@ =~= seq![*bump]);
                out.push(nonce);
            },
            Authority::Config { bump } => {
                out.push(global_state_label_bytes());
                let nonce: Vec<u8> = vec![*bump];
                assert(nonce@ =~= seq![*bump]);
                out.push(nonce);
            },
        }
        assert(seeds_view(out@) =~= self.seeds());
        out
    }
}

/// One delegated, checked transfer: `amount` of `mint`, at `decimals`
/// digits of precision, out of `from` into `to`, on the word of `authority`.
#[derive(Clone, Copy, Debug, PartialEq, Eq)]
pub struct TransferChecked {
    pub from: Identity,
    pub mint: Identity,
    pub to: Identity,
    pub authority: Identity,
    pub signer: Authority,
    pub amount: u64,
    pub decimals: u8,
}

} // verus!
