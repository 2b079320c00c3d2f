//! Failures that revert the triggering call.

use vstd::prelude::*;

verus! {

/// Why a call reverts. Forwarding failures inside a Cell are not errors:
/// they are absorbed so that the Cell always tears itself down.
#[derive(Debug, Clone, Copy, PartialEq, Eq, Structural)]
pub enum ContractError {
    InvalidType,
    UnknownSelector,
    InsufficientFee,
    InsufficientGas,
    RoutingFailed,
    CellDeployFailed,
    NotOwner,
    NoFees,
    WithdrawFailed,
}

/// The diagnostic handed back to the host with a revert.
pub open spec fn message_spec(e: ContractError) -> Seq<char> {
    match e {
        ContractError::InvalidType => "invalid type"@,
        ContractError::UnknownSelector => "unknown selector"@,
        ContractError::InsufficientFee => "insufficient fee"@,
        ContractError::InsufficientGas => "insufficient gas"@,
        ContractError::RoutingFailed => "routing failed"@,
        ContractError::CellDeployFailed => "cell deploy failed"@,
        ContractError::NotOwner => "not owner"@,
        ContractError::NoFees => "no fees"@,
        ContractError::WithdrawFailed => "withdraw failed"@,
    }
}

impl ContractError {
    /// The short ASCII diagnostic returned as revert data.
    pub fn message(&self) -> (r: &'static str)
        ensures
            r@ == message_spec(*self),
    {
        match self {
            ContractError::InvalidType => "invalid type",
            ContractError::UnknownSelector => "unknown selector",
            ContractError::InsufficientFee => "insufficient fee",
            ContractError::InsufficientGas => "insufficient gas",
            ContractError::RoutingFailed => "routing failed",
            ContractError::CellDeployFailed => "cell deploy failed",
            ContractError::NotOwner => "not owner",
            ContractError::NoFees => "no fees",
            ContractError::WithdrawFailed => "withdraw failed",
        }
    }
}

} // verus!
