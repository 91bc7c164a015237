use vstd::prelude::*;

verus! {

/// An amount of one denomination, as a bank balance or a payment carries it.
#[derive(Debug, Clone, PartialEq, Eq)]
pub struct Coin {
    pub denom: String,
    pub amount: u128,
}

/// A coin seen as plain values.
pub struct CoinView {
    pub denom: Seq<char>,
    pub amount: u128,
}

impl View for Coin {
    type V = CoinView;

    open spec fn view(&self) -> CoinView {
        CoinView { denom: self.denom@, amount: self.amount }
    }
}

/// One hop of a swap through the Osmosis pool manager: the pool to trade in
/// and the denomination that comes out of it.
#[derive(Debug, Clone, PartialEq, Eq)]
pub struct SwapAmountInRoute {
    pub pool_id: u64,
    pub token_out_denom: String,
}

impl View for SwapAmountInRoute {
    type V = (u64, Seq<char>);

    open spec fn view(&self) -> (u64, Seq<char>) {
        (self.pool_id, self.token_out_denom@)
    }
}

/// The routes of a swap, hop by hop, as plain values.
pub open spec fn route_views(routes: Seq<SwapAmountInRoute>) -> Seq<(u64, Seq<char>)> {
    routes.map_values(|r: SwapAmountInRoute| r@)
}

/// The configuration the contract is created with.
#[derive(Debug, Clone, PartialEq, Eq)]
pub struct InstantiateMsg {
    pub min_disbursal_amount: u64,
    pub channel_id: String,
    pub ibc_timeout_interval: u64,
    pub memo: String,
    pub to_address: String,
    pub admin: String,
}

/// The requests the contract executes.
#[derive(Debug, Clone, PartialEq, Eq)]
pub enum ExecuteMsg {
    /// Send the whole balance of `denom` over IBC, if it reaches the minimum.
    DisburseFunds { denom: String },
    /// Swap funds of the contract through the pool manager (admin only).
    SwapExactAmountIn {
        routes: Vec<SwapAmountInRoute>,
        token_in: Coin,
        token_out_min_amount: String,
    },
    /// Name a candidate for the admin rights (admin only).
    TransferAdmin { to: String },
    /// Call a hand-over of the admin rights off (admin only).
    CancelTransferAdmin {},
    /// Take the admin rights over (candidate only).
    ClaimAdmin {},
}

/// The queries the contract answers.
#[derive(Debug, Clone, PartialEq, Eq)]
pub enum QueryMsg {
    GetBalance { denom: String },
}

/// The answer to `QueryMsg::GetBalance`.
#[derive(Debug, Clone, PartialEq, Eq)]
pub struct GetBalanceResponse {
    pub balance: Coin,
}

} // verus!
