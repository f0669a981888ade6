//! The ways in which the escrow rejects a call.

use vstd::prelude::*;

verus! {

/// Why a text is not the hex encoding of any byte string.
#[derive(Debug, Clone, Copy, PartialEq, Eq, Structural)]
pub enum HexError {
    /// The byte `c` at position `index` is no hex digit.
    InvalidHexCharacter { c: char, index: usize },
    /// The text has an odd number of digits.
    OddLength,
    /// The text does not fill a container of fixed size.
    InvalidStringLength,
}

/// Why a text is not a 32-byte value in hex.
#[derive(Debug, Clone, Copy, PartialEq, Eq, Structural)]
pub enum InvalidHash {
    /// The text is hex, but not of 32 bytes.
    WrongLength,
    /// The text is not hex.
    Malformed(HexError),
}

/// A rejection of one call. Every rejection ends the call; nothing is
/// retried and nothing is persisted.
#[derive(Debug, Clone, Copy, PartialEq, Eq, Structural)]
pub enum ContractError {
    /// A commitment or a preimage is not 32 bytes of hex.
    ValidationError(InvalidHash),
    /// The escrow would be expired from the moment it is created.
    AlreadyExpiredAtCreation,
    /// No escrow has been created yet.
    Uninitialized,
    /// The preimage does not hash to the commitment.
    InvalidPreimage,
    /// A release was asked for at or after a deadline.
    SwapExpired,
    /// A refund was asked for before every deadline.
    SwapNotYetExpired,
}

impl HexError {
    /// The text of `description`.
    pub open spec fn description_text(self) -> Seq<char> {
        match self {
            HexError::InvalidHexCharacter { .. } => "invalid character"@,
            HexError::OddLength => "odd number of digits"@,
            HexError::InvalidStringLength => "invalid string length"@,
        }
    }

    /// The short text that names this error.
    pub fn description(&self) -> (text: &'static str)
        ensures
            text@ == self.description_text(),
    {
        match self {
            HexError::InvalidHexCharacter { .. } => "invalid character",
            HexError::OddLength => "odd number of digits",
            HexError::InvalidStringLength => "invalid string length",
        }
    }
}

impl ContractError {
    /// The text of `message`.
    pub open spec fn message_text(self) -> Seq<char> {
        match self {
            ContractError::ValidationError(InvalidHash::WrongLength) => "hash must be 64 characters"@,
            ContractError::ValidationError(InvalidHash::Malformed(e)) => "parsing hash: "@
                + e.description_text(),
            ContractError::AlreadyExpiredAtCreation => "creating expired swap"@,
            ContractError::Uninitialized => "uninitialized data"@,
            ContractError::InvalidPreimage => "invalid preimage"@,
            ContractError::SwapExpired => "swap expired"@,
            ContractError::SwapNotYetExpired => "swap not yet expired"@,
        }
    }

    /// The text shown to the caller.
    pub fn message(&self) -> (text: String)
        ensures
            text@ == self.message_text(),
    {
        match self {
            ContractError::ValidationError(InvalidHash::WrongLength) => {
                "hash must be 64 characters".to_string()
            },
            ContractError::ValidationError(InvalidHash::Malformed(e)) => {
                String::from_str("parsing hash: ").concat(e.description())
            },
            ContractError::AlreadyExpiredAtCreation => "creating expired swap".to_string(),
            ContractError::Uninitialized => "uninitialized data".to_string(),
            ContractError::InvalidPreimage => "invalid preimage".to_string(),
            ContractError::SwapExpired => "swap expired".to_string(),
            ContractError::SwapNotYetExpired => "swap not yet expired".to_string(),
        }
    }
}

} // verus!
