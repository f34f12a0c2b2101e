//! The vault record of one streamer.

use vstd::prelude::*;
use crate::identity::Identity;

verus! {

/// One streamer's vault record. Its address is derived from the vault label
/// and `user_wallet`, so an owner has at most one.
#[derive(Clone, Copy, Debug, PartialEq, Eq)]
pub struct Streamer {
    /// The streamer who owns the vault.
    pub user_wallet: Identity,
    /// Address of the token account that holds the vault's balance.
    pub user_token_account: Identity,
    /// Nonce of the record's derived address.
    pub bump: u8,
}

} // verus!
