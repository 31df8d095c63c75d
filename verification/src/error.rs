//! The ways an operation can be refused.

use vstd::prelude::*;
use vstd::string::StringExecFns;

verus! {

/// An administrator-only operation, named so that a refusal can say which
/// one was attempted.
#[derive(Clone, Copy, Debug, PartialEq, Eq, Structural)]
pub enum AdminAction {
    SetCw20Address,
    UpdateMinter,
    SetBurnThreshold,
    SetMaxMintRatio,
    SetPaused,
}

/// An input that an operation does not take.
#[derive(Clone, Copy, Debug, PartialEq, Eq, Structural)]
pub enum InputFault {
    /// No positive amount of the base currency came with a contribution.
    NoFundsSent,
    /// A burn granularity of zero.
    ZeroBurnThreshold,
}

/// Why an operation failed. A failed operation changes nothing.
#[derive(Clone, Copy, Debug, PartialEq, Eq, Structural)]
pub enum ContractError {
    /// The configuration was read before it was ever written.
    NotInitialized,
    /// The caller is not the administrator.
    Unauthorized(AdminAction),
    /// The input is outside what the operation accepts.
    InvalidInput(InputFault),
    /// A contribution arrived while contributions are paused.
    Paused,
    /// A division by a ratio of zero.
    ArithmeticError,
    /// The address validator turned an address down.
    AddressValidationError,
    /// An outbound message could not be encoded.
    SerializationError,
}

impl ContractError {
    /// What went wrong, in words.
    pub open spec fn reason(&self) -> Seq<char> {
        match *self {
            ContractError::NotInitialized => "burn_to_mint::state::Config not found"@,
            ContractError::Unauthorized(AdminAction::SetCw20Address) => {
                "Only admin can set CW20 address"@
            },
            ContractError::Unauthorized(AdminAction::UpdateMinter) => {
                "Only admin can update minter"@
            },
            ContractError::Unauthorized(AdminAction::SetBurnThreshold) => {
                "Only admin can set burn threshold"@
            },
            ContractError::Unauthorized(AdminAction::SetMaxMintRatio) => {
                "Only admin can set max mint ratio"@
            },
            ContractError::Unauthorized(AdminAction::SetPaused) => {
                "Only admin can set pause status"@
            },
            ContractError::InvalidInput(InputFault::NoFundsSent) => "No uluna sent for minting"@,
            ContractError::InvalidInput(InputFault::ZeroBurnThreshold) => {
                "Burn threshold cannot be zero"@
            },
            ContractError::Paused => "Minting is currently paused"@,
            ContractError::ArithmeticError => "Division by zero in mint amount calculation"@,
            ContractError::AddressValidationError => "Invalid address"@,
            ContractError::SerializationError => "Failed to serialize message"@,
        }
    }

    /// The text shown to a caller: the reason, marked as a generic error
    /// unless the configuration was simply not found.
    pub open spec fn message(&self) -> Seq<char> {
        match *self {
            ContractError::NotInitialized => self.reason(),
            _ => "Generic error: "@ + self.reason(),
        }
    }

    /// What went wrong, in words.
    pub fn reason_text(&self) -> (text: String)
        ensures
            text@ == self.reason(),
    {
        match self {
            ContractError::NotInitialized => "burn_to_mint::state::Config not found".to_owned(),
            ContractError::Unauthorized(AdminAction::SetCw20Address) => {
                "Only admin can set CW20 address".to_owned()
            },
            ContractError::Unauthorized(AdminAction::UpdateMinter) => {
                "Only admin can update minter".to_owned()
            },
            ContractError::Unauthorized(AdminAction::SetBurnThreshold) => {
                "Only admin can set burn threshold".to_owned()
            },
            ContractError::Unauthorized(AdminAction::SetMaxMintRatio) => {
                "Only admin can set max mint ratio".to_owned()
            },
            ContractError::Unauthorized(AdminAction::SetPaused) => {
                "Only admin can set pause status".to_owned()
            },
            ContractError::InvalidInput(InputFault::NoFundsSent) => {
                "No uluna sent for minting".to_owned()
            },
            ContractError::InvalidInput(InputFault::ZeroBurnThreshold) => {
                "Burn threshold cannot be zero".to_owned()
            },
            ContractError::Paused => "Minting is currently paused".to_owned(),
            ContractError::ArithmeticError => {
                "Division by zero in mint amount calculation".to_owned()
            },
            ContractError::AddressValidationError => "Invalid address".to_owned(),
            ContractError::SerializationError => "Failed to serialize message".to_owned(),
        }
    }

    /// The text shown to a caller.
    pub fn to_string(&self) -> (text: String)
        ensures
            text@ == self.message(),
    {
        let reason = self.reason_text();
        match self {
            ContractError::NotInitialized => reason,
            _ => "Generic error: ".to_owned().concat(reason.as_str()),
        }
    }
}

} // verus!
