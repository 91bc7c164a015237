use crate::msg::{route_views, Coin, SwapAmountInRoute};
use osmosis_std::types::osmosis::poolmanager::v1beta1::MsgSwapExactAmountIn;
use vstd::prelude::*;

verus! {

/// The protobuf encoding of a `MsgSwapExactAmountIn` with the given sender,
/// routes (pool id and output denomination of each hop), input coin and
/// minimum output amount.
pub uninterp spec fn swap_exact_amount_in_bytes(
    sender: Seq<char>,
    routes: Seq<(u64, Seq<char>)>,
    token_in_denom: Seq<char>,
    token_in_amount: u128,
    token_out_min_amount: Seq<char>,
) -> Seq<u8>;

/// `MsgSwapExactAmountIn { .. }.to_proto_bytes()` of osmosis-std.
///
/// The routes and the input coin are converted field by field into the
/// crate's own types (the coin through `cosmwasm_std::Coin`, as the crate's
/// `From` impl does). prost's encoding depends on the message alone, so the
/// result is named by `swap_exact_amount_in_bytes` of the arguments.
#[verifier::external_body]
pub(crate) fn encode_swap_exact_amount_in(
    sender: &String,
    routes: &Vec<SwapAmountInRoute>,
    token_in: &Coin,
    token_out_min_amount: &String,
) -> (r: Vec<u8>)
    ensures
        r@ == swap_exact_amount_in_bytes(
            sender@,
            route_views(routes@),
            token_in.denom@,
            token_in.amount,
            token_out_min_amount@,
        ),
{
    MsgSwapExactAmountIn {
        sender: sender.clone(),
        routes: routes.iter().map(|r| osmosis_std::types::osmosis::poolmanager::v1beta1::SwapAmountInRoute {
            pool_id: r.pool_id,
            token_out_denom: r.token_out_denom.clone(),
        }).collect(),
        token_in: Some(cosmwasm_std::Coin::new(token_in.amount, token_in.denom.clone()).into()),
        token_out_min_amount: token_out_min_amount.clone(),
    }.to_proto_bytes()
}

/// `MsgSwapExactAmountIn::TYPE_URL` of osmosis-std, which the crate's derive
/// sets to the literal below.
#[verifier::external_body]
pub(crate) fn swap_exact_amount_in_type_url() -> (r: String)
    ensures
        r@ == "/osmosis.poolmanager.v1beta1.MsgSwapExactAmountIn"@,
{
    MsgSwapExactAmountIn::TYPE_URL.to_string()
}

} // verus!
