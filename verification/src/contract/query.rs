use crate::msg::{Coin, GetBalanceResponse};
use cosmwasm_std::StdError;
use vstd::prelude::*;

verus! {

/// The answer to a balance query, given what the bank reported for the
/// contract's address: the reported coin, or the bank's error.
pub fn balance(queried: Result<Coin, StdError>) -> (r: Result<GetBalanceResponse, StdError>)
    ensures
        match queried {
            Ok(coin) => r == Ok::<GetBalanceResponse, StdError>(GetBalanceResponse { balance: coin }),
            Err(e) => r == Err::<GetBalanceResponse, StdError>(e),
        },
{
    match queried {
        Ok(coin) => Ok(GetBalanceResponse { balance: coin }),
        Err(e) => Err(e),
    }
}

} // verus!
