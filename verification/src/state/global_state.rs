//! The singleton platform configuration.

use vstd::prelude::*;
use crate::identity::Identity;

verus! {

/// Exclusive upper bound of the fee rate, and the divisor that turns basis
/// points into a fraction.
pub const BASIS_POINTS: u16 = 10_000;

/// The platform configuration. There is one per deployment.
#[derive(Clone, Copy, Debug, PartialEq, Eq)]
pub struct GlobalState {
    /// Identity allowed to sweep the treasury.
    pub admin: Identity,
    /// Platform fee in basis points.
    pub platform_fee_bps: u16,
    /// Address of the treasury, the token account that collects the fees.
    pub platform_fee_account: Identity,
    /// The one supported token.
    pub supported_tokens_mint: Identity,
    /// Nonce of the configuration's derived address.
    pub bump: u8,
    /// Set once by initialization and never cleared.
    pub initialized: bool,
}

impl GlobalState {
    /// An initialized configuration carries a fee rate inside the accepted
    /// range. Initialization establishes this, and nothing changes the
    /// record afterwards.
    pub open spec fn wf(self) -> bool {
        self.initialized ==> self.platform_fee_bps < BASIS_POINTS
    }

    /// The configuration before initialization: every field zero.
    pub fn empty() -> (state: GlobalState)
        ensures
            !state.initialized,
            state.wf(),
            state.platform_fee_bps == 0,
            state.bump == 0,
            state.admin@ == Seq::new(32, |i: int| 0u8),
            state.platform_fee_account@ == state.admin@,
            state.supported_tokens_mint@ == state.admin@,
    {
        let zero = Identity::new([0u8; 32]);
        assert(zero@ =~= Seq::new(32, |i: int| 0u8));
        GlobalState {
            admin: zero,
            platform_fee_bps: 0,
            platform_fee_account: zero,
            supported_tokens_mint: zero,
            bump: 0,
            initialized: false,
        }
    }
}

} // verus!
