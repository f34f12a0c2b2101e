//! The one error type of the platform.

use vstd::prelude::*;

verus! {

/// Why an operation was refused. Every refusal aborts the whole operation:
/// no transfer is named and no record changes.
#[derive(Clone, Copy, Debug, PartialEq, Eq, Structural)]
pub enum SwitchedError {
    /// The configuration, or a vault record under the create-once policy,
    /// exists already.
    AlreadyInitialized,
    /// The configuration has not been initialized, or the account offered
    /// as the configuration is not the one derived for the program.
    NotInitialized,
    /// A vault or token account does not belong to the party it is used for.
    WrongOwner,
    /// The caller is not the identity that the operation is reserved for.
    Unauthorized,
    /// The treasury account is not the one the configuration names, or is
    /// not controlled by the configuration's derived authority.
    TreasuryError,
    /// The fee rate lies outside the accepted range.
    BasePointError,
    /// A zero deposit, or fees that exceed the amount withdrawn.
    InvalidAmount,
    /// The amount asked for exceeds the balance of the account debited.
    InsufficientVaultBalance,
    /// The token's decimal precision is not the supported one.
    InvalidMint,
    /// An account is denominated in a token other than the supported one.
    InvalidMintAddress,
    /// The fee product does not fit in 64 bits.
    MultiplicationOverflow,
    /// The fee quotient is undefined.
    DivisionOverflow,
}

/// First number of the range in which the error codes lie.
pub const ERROR_CODE_OFFSET: u32 = 6000;

impl SwitchedError {
    /// Position of the variant in the declaration, from zero.
    pub open spec fn ordinal(self) -> int {
        match self {
            SwitchedError::AlreadyInitialized => 0,
            SwitchedError::NotInitialized => 1,
            SwitchedError::WrongOwner => 2,
            SwitchedError::Unauthorized => 3,
            SwitchedError::TreasuryError => 4,
            SwitchedError::BasePointError => 5,
            SwitchedError::InvalidAmount => 6,
            SwitchedError::InsufficientVaultBalance => 7,
            SwitchedError::InvalidMint => 8,
            SwitchedError::InvalidMintAddress => 9,
            SwitchedError::MultiplicationOverflow => 10,
            SwitchedError::DivisionOverflow => 11,
        }
    }

    /// The numeric code under which the error is reported: the offset plus
    /// the variant's position.
    pub fn code(&self) -> (code: u32)
        ensures
            code == ERROR_CODE_OFFSET + self.ordinal(),
    {
        match self {
            SwitchedError::AlreadyInitialized => 6000,
            SwitchedError::NotInitialized => 6001,
            SwitchedError::WrongOwner => 6002,
            SwitchedError::Unauthorized => 6003,
            SwitchedError::TreasuryError => 6004,
            SwitchedError::BasePointError => 6005,
            SwitchedError::InvalidAmount => 6006,
            SwitchedError::InsufficientVaultBalance => 6007,
            SwitchedError::InvalidMint => 6008,
            SwitchedError::InvalidMintAddress => 6009,
            SwitchedError::MultiplicationOverflow => 6010,
            SwitchedError::DivisionOverflow => 6011,
        }
    }

    /// The text shown for each error.
    pub open spec fn message_text(self) -> Seq<char> {
        match self {
            SwitchedError::AlreadyInitialized => "The project is already initialized."@,
            SwitchedError::NotInitialized => "The project is not initialized."@,
            SwitchedError::WrongOwner => "Not your Turn"@,
            SwitchedError::Unauthorized => "Unauthorized access, cannot withdraw on user's behalf"@,
            SwitchedError::TreasuryError => "Invalid Treasury Account"@,
            SwitchedError::BasePointError => "Invalid Parameter percentage bps."@,
            SwitchedError::InvalidAmount => "Invalid Tip Amount"@,
            SwitchedError::InsufficientVaultBalance => "Insufficient Vault Amount"@,
            SwitchedError::InvalidMint => "Token Decimal should be 6"@,
            SwitchedError::InvalidMintAddress => "You provided a wrong mint Address"@,
            SwitchedError::MultiplicationOverflow => "Multiplication overflow"@,
            SwitchedError::DivisionOverflow => "Division overflow"@,
        }
    }

    /// The human-readable message of the error.
    pub fn message(&self) -> (text: &'static str)
        ensures
            text@ == self.message_text(),
    {
        match self {
            SwitchedError::AlreadyInitialized => "The project is already initialized.",
            SwitchedError::NotInitialized => "The project is not initialized.",
            SwitchedError::WrongOwner => "Not your Turn",
            SwitchedError::Unauthorized => "Unauthorized access, cannot withdraw on user's behalf",
            SwitchedError::TreasuryError => "Invalid Treasury Account",
            SwitchedError::BasePointError => "Invalid Parameter percentage bps.",
            SwitchedError::InvalidAmount => "Invalid Tip Amount",
            SwitchedError::InsufficientVaultBalance => "Insufficient Vault Amount",
            SwitchedError::InvalidMint => "Token Decimal should be 6",
            SwitchedError::InvalidMintAddress => "You provided a wrong mint Address",
            SwitchedError::MultiplicationOverflow => "Multiplication overflow",
            SwitchedError::DivisionOverflow => "Division overflow",
        }
    }
}

/// Distinct errors have distinct codes.
pub proof fn lemma_code_identifies_error(a: SwitchedError, b: SwitchedError)
    requires
        a.ordinal() == b.ordinal(),
    ensures
        a == b,
{
}

} // verus!
