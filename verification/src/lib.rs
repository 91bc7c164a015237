//! Core of a CosmWasm contract that holds funds on behalf of an admin, sends
//! them on over IBC once enough has accumulated, and lets the admin swap them
//! through the Osmosis pool manager and hand its rights to another address.
//!
//! Everything that touches chain storage, the chain's address rules or the
//! bank querier is done by the caller, which hands the outcome to the
//! functions here as plain values.

pub mod admin;
pub mod contract;
pub mod cosmwasm;
pub mod error;
pub mod msg;
pub mod osmosis;
pub mod response;
pub mod state;

pub use error::ContractError;
