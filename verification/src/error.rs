use cosmwasm_std::StdError;
use vstd::prelude::*;

verus! {

/// The ways a request to the contract can be refused.
#[derive(Debug, PartialEq)]
pub enum ContractError {
    /// A failure reported by the chain (storage, address validation, queries).
    Std(StdError),
    /// The sender is not allowed to perform the request.
    Unauthorized {},
    /// The contract holds less of the requested denomination than the disbursal minimum.
    InsufficientFunds {},
}

} // verus!
