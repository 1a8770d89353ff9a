//! The failures that the treasury reports to its caller.

use vstd::prelude::*;

verus! {

/// Why an invocation was refused. Every refusal is exactly one of these.
#[derive(Clone, Copy, Debug, PartialEq, Eq, Structural)]
pub enum ContractError {
    /// The token contract did not answer the balance query.
    FailedToGetBalance,
    /// A contribution was not strictly positive.
    InvalidAmount,
    /// The supporter ledger was asked for while it was empty.
    NoSupporters,
}

impl ContractError {
    /// The number under which the host reports this error.
    pub open spec fn spec_code(self) -> u32 {
        match self {
            ContractError::FailedToGetBalance => 1,
            ContractError::InvalidAmount => 2,
            ContractError::NoSupporters => 3,
        }
    }

    /// The number under which the host reports this error.
    pub fn code(&self) -> (code: u32)
        ensures
            code == self.spec_code(),
    {
        match self {
            ContractError::FailedToGetBalance => 1,
            ContractError::InvalidAmount => 2,
            ContractError::NoSupporters => 3,
        }
    }
}

} // verus!
