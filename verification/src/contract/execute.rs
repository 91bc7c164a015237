use crate::admin::Admin;
use crate::contract::{outcome_view, ExecEnv, Outcome, OutcomeView};
use crate::cosmwasm::{timestamp_plus_seconds, NANOS_PER_SECOND};
use crate::error::ContractError;
use crate::msg::{route_views, Coin, SwapAmountInRoute};
use crate::osmosis::{
    encode_swap_exact_amount_in, swap_exact_amount_in_bytes, swap_exact_amount_in_type_url,
};
use crate::response::{method_response, ContractResponse, OutgoingMsg, OutgoingMsgView, ResponseView};
use crate::state::State;
use cosmwasm_std::StdError;
use vstd::prelude::*;

verus! {

/// When an IBC transfer sent now times out: `ibc_timeout_interval` seconds
/// after the block time, in nanoseconds.
pub open spec fn disbursal_timeout(state: State, env: ExecEnv) -> int {
    env.block_time + state.ibc_timeout_interval * NANOS_PER_SECOND
}

/// The timeout of a disbursal can be represented by the chain's timestamps
/// (the computation panics otherwise).
pub open spec fn disbursal_timeout_fits(state: State, env: ExecEnv) -> bool {
    &&& state.ibc_timeout_interval * NANOS_PER_SECOND <= u64::MAX
    &&& disbursal_timeout(state, env) <= u64::MAX
}

/// A disbursal, given the contract's balance of the requested denomination:
/// refused below the minimum, otherwise the whole balance goes over the
/// configured channel to the configured address, with the configured memo.
pub open spec fn disburse_funds_result(
    state: State,
    env: ExecEnv,
    balance: Result<Coin, StdError>,
) -> Result<OutcomeView, ContractError> {
    match balance {
        Err(e) => Err(ContractError::Std(e)),
        Ok(coin) => if coin.amount < state.min_disbursal_amount {
            Err(ContractError::InsufficientFunds {})
        } else {
            Ok(
                OutcomeView {
                    new_state: None,
                    response: method_response(
                        "disburse_funds"@,
                        seq![
                            OutgoingMsgView::IbcTransfer {
                                channel_id: state.channel_id@,
                                to_address: state.to_address@,
                                amount: coin@,
                                timeout_timestamp: disbursal_timeout(state, env) as u64,
                                memo: Some(state.memo@),
                            },
                        ],
                    ),
                },
            )
        },
    }
}

/// Sends the contract's balance of a denomination over IBC, if it reaches the
/// minimum; `balance` is what the bank reported for the contract's address.
pub fn disburse_funds(state: State, env: &ExecEnv, balance: Result<Coin, StdError>) -> (r: Result<
    Outcome,
    ContractError,
>)
    requires
        balance matches Ok(coin) && coin.amount >= state.min_disbursal_amount
            ==> disbursal_timeout_fits(state, *env),
    ensures
        outcome_view(r) == disburse_funds_result(state, *env, balance),
        balance matches Err(e) ==> r == Err::<Outcome, ContractError>(ContractError::Std(e)),
        balance matches Ok(coin) ==> if coin.amount < state.min_disbursal_amount {
            r matches Err(ContractError::InsufficientFunds {})
        } else {
            &&& r is Ok
            &&& r->Ok_0.new_state is None
            &&& r->Ok_0.response@.attributes == seq![("method"@, "disburse_funds"@)]
            &&& r->Ok_0.response@.messages == seq![
                OutgoingMsgView::IbcTransfer {
                    channel_id: state.channel_id@,
                    to_address: state.to_address@,
                    amount: coin@,
                    timeout_timestamp: (env.block_time + state.ibc_timeout_interval
                        * 1_000_000_000) as u64,
                    memo: Some(state.memo@),
                },
            ]
        },
{
    let coin = match balance {
        Ok(coin) => coin,
        Err(e) => return Err(ContractError::Std(e)),
    };
    if coin.amount < state.min_disbursal_amount as u128 {
        return Err(ContractError::InsufficientFunds {});
    }
    let timeout_timestamp = timestamp_plus_seconds(env.block_time, state.ibc_timeout_interval);
    let State { channel_id, ibc_timeout_interval: _, min_disbursal_amount: _, memo, to_address, admin: _ } =
        state;
    let msg = OutgoingMsg::IbcTransfer {
        channel_id,
        to_address,
        amount: coin,
        timeout_timestamp,
        memo: Some(memo),
    };
    let response = ContractResponse::with_method("disburse_funds").add_message(msg);
    proof {
        assert(response@.messages =~= seq![msg@]);
    }
    Ok(Outcome { new_state: None, response })
}

/// The response to a swap whose message encodes to `value`.
pub open spec fn swap_response_view(value: Seq<u8>) -> ResponseView {
    method_response(
        "swap_exact_amount_in"@,
        seq![
            OutgoingMsgView::Any {
                type_url: "/osmosis.poolmanager.v1beta1.MsgSwapExactAmountIn"@,
                value,
            },
        ],
    )
}

/// A swap on behalf of the contract: only the current admin may ask for
/// one; the contract itself is the sender of the pool-manager message.
pub open spec fn swap_exact_amount_in_result(
    state: State,
    env: ExecEnv,
    sender: Seq<char>,
    routes: Seq<SwapAmountInRoute>,
    token_in: Coin,
    token_out_min_amount: Seq<char>,
) -> Result<OutcomeView, ContractError> {
    if sender != state.admin.current_admin()@ {
        Err(ContractError::Unauthorized {})
    } else {
        Ok(
            OutcomeView {
                new_state: None,
                response: swap_response_view(
                    swap_exact_amount_in_bytes(
                        env.contract_address@,
                        route_views(routes),
                        token_in.denom@,
                        token_in.amount,
                        token_out_min_amount,
                    ),
                ),
            },
        )
    }
}

/// The response that dispatches an encoded `MsgSwapExactAmountIn`.
pub fn swap_response(value: Vec<u8>) -> (r: ContractResponse)
    ensures
        r@ == swap_response_view(value@),
{
    let msg = OutgoingMsg::Any { type_url: swap_exact_amount_in_type_url(), value };
    let response = ContractResponse::with_method("swap_exact_amount_in").add_message(msg);
    proof {
        assert(response@.messages =~= seq![msg@]);
    }
    response
}

/// Swaps funds of the contract through the pool manager, for the admin only.
pub fn swap_exact_amount_in(
    state: State,
    env: &ExecEnv,
    sender: &String,
    routes: Vec<SwapAmountInRoute>,
    token_in: Coin,
    token_out_min_amount: String,
) -> (r: Result<Outcome, ContractError>)
    ensures
        outcome_view(r) == swap_exact_amount_in_result(
            state,
            *env,
            sender@,
            routes@,
            token_in,
            token_out_min_amount@,
        ),
        sender@ != state.admin.current_admin()@ ==> r matches Err(ContractError::Unauthorized {}),
        sender@ == state.admin.current_admin()@ ==> {
            &&& r is Ok
            &&& r->Ok_0.new_state is None
            &&& r->Ok_0.response@.attributes == seq![("method"@, "swap_exact_amount_in"@)]
            &&& r->Ok_0.response@.messages == seq![
                OutgoingMsgView::Any {
                    type_url: "/osmosis.poolmanager.v1beta1.MsgSwapExactAmountIn"@,
                    value: swap_exact_amount_in_bytes(
                        env.contract_address@,
                        routes@.map_values(|x: SwapAmountInRoute| (x.pool_id, x.token_out_denom@)),
                        token_in.denom@,
                        token_in.amount,
                        token_out_min_amount@,
                    ),
                },
            ]
        },
{
    if *sender != *state.admin.admin() {
        return Err(ContractError::Unauthorized {});
    }
    assert(route_views(routes@) =~= routes@.map_values(
        |x: SwapAmountInRoute| (x.pool_id, x.token_out_denom@),
    ));
    let value = encode_swap_exact_amount_in(
        &env.contract_address,
        &routes,
        &token_in,
        &token_out_min_amount,
    );
    Ok(Outcome { new_state: None, response: swap_response(value) })
}

/// The state after the admin of `state` was replaced by `admin`.
pub open spec fn with_admin(state: State, admin: Admin) -> State {
    State { admin, ..state }
}

/// An admin request answered by the admin record's own rule `step`.
pub open spec fn admin_request_result(
    state: State,
    step: Result<Admin, ContractError>,
    method: Seq<char>,
) -> Result<OutcomeView, ContractError> {
    match step {
        Ok(admin) => Ok(
            OutcomeView {
                new_state: Some(with_admin(state, admin)),
                response: method_response(method, seq![]),
            },
        ),
        Err(e) => Err(e),
    }
}

/// Naming `to` as admin candidate; `validated_to` is what the chain's address
/// validation answered for `to`.
pub open spec fn transfer_admin_result(
    state: State,
    sender: Seq<char>,
    validated_to: Result<String, StdError>,
) -> Result<OutcomeView, ContractError> {
    match validated_to {
        Err(e) => Err(ContractError::Std(e)),
        Ok(to) => admin_request_result(
            state,
            state.admin.transfer_result(sender, to),
            "transfer_admin"@,
        ),
    }
}

/// Calling a hand-over off.
pub open spec fn cancel_transfer_admin_result(state: State, sender: Seq<char>) -> Result<
    OutcomeView,
    ContractError,
> {
    admin_request_result(state, state.admin.cancel_result(sender), "cancel_transfer_admin"@)
}

/// Claiming the admin rights.
pub open spec fn claim_admin_result(state: State, sender: Seq<char>) -> Result<
    OutcomeView,
    ContractError,
> {
    admin_request_result(state, state.admin.claim_result(sender), "claim_admin"@)
}

/// Names a candidate for the admin rights (admin only).
pub fn transfer_admin(state: State, sender: &String, validated_to: Result<String, StdError>) -> (r:
    Result<Outcome, ContractError>)
    ensures
        outcome_view(r) == transfer_admin_result(state, sender@, validated_to),
        validated_to matches Err(e) ==> r == Err::<Outcome, ContractError>(ContractError::Std(e)),
        validated_to matches Ok(to) ==> if sender@ == state.admin.current_admin()@ {
            &&& r is Ok
            &&& r->Ok_0.new_state == Some(
                State { admin: Admin::Transferring { from: state.admin.current_admin(), to }, ..state },
            )
            &&& r->Ok_0.response@.attributes == seq![("method"@, "transfer_admin"@)]
            &&& r->Ok_0.response@.messages.len() == 0
        } else {
            r matches Err(ContractError::Unauthorized {})
        },
{
    let to = match validated_to {
        Ok(to) => to,
        Err(e) => return Err(ContractError::Std(e)),
    };
    let State { channel_id, ibc_timeout_interval, min_disbursal_amount, memo, to_address, admin } =
        state;
    let admin = match admin.transfer(sender, to) {
        Ok(admin) => admin,
        Err(e) => return Err(e),
    };
    let new_state = State {
        channel_id,
        ibc_timeout_interval,
        min_disbursal_amount,
        memo,
        to_address,
        admin,
    };
    Ok(
        Outcome {
            new_state: Some(new_state),
            response: ContractResponse::with_method("transfer_admin"),
        },
    )
}

/// Calls a hand-over of the admin rights off (admin only).
pub fn cancel_transfer_admin(state: State, sender: &String) -> (r: Result<Outcome, ContractError>)
    ensures
        outcome_view(r) == cancel_transfer_admin_result(state, sender@),
        sender@ == state.admin.current_admin()@ ==> {
            &&& r is Ok
            &&& r->Ok_0.new_state == Some(
                State { admin: Admin::Settled { current: state.admin.current_admin() }, ..state },
            )
            &&& r->Ok_0.response@.attributes == seq![("method"@, "cancel_transfer_admin"@)]
            &&& r->Ok_0.response@.messages.len() == 0
        },
        sender@ != state.admin.current_admin()@ ==> r matches Err(ContractError::Unauthorized {}),
{
    let State { channel_id, ibc_timeout_interval, min_disbursal_amount, memo, to_address, admin } =
        state;
    let admin = match admin.cancel_transfer(sender) {
        Ok(admin) => admin,
        Err(e) => return Err(e),
    };
    let new_state = State {
        channel_id,
        ibc_timeout_interval,
        min_disbursal_amount,
        memo,
        to_address,
        admin,
    };
    Ok(
        Outcome {
            new_state: Some(new_state),
            response: ContractResponse::with_method("cancel_transfer_admin"),
        },
    )
}

/// Takes the admin rights over (pending candidate only).
pub fn claim_admin(state: State, sender: &String) -> (r: Result<Outcome, ContractError>)
    ensures
        outcome_view(r) == claim_admin_result(state, sender@),
        state.admin.pending_candidate() matches Some(candidate) ==> (sender@ == candidate@ ==> {
            &&& r is Ok
            &&& r->Ok_0.new_state == Some(
                State { admin: Admin::Settled { current: candidate }, ..state },
            )
            &&& r->Ok_0.response@.attributes == seq![("method"@, "claim_admin"@)]
            &&& r->Ok_0.response@.messages.len() == 0
        }),
        state.admin.pending_candidate() matches Some(candidate) ==> (sender@ != candidate@ ==> (r
            matches Err(ContractError::Unauthorized {}))),
        state.admin.pending_candidate() is None ==> (r matches Err(ContractError::Unauthorized {})),
{
    let State { channel_id, ibc_timeout_interval, min_disbursal_amount, memo, to_address, admin } =
        state;
    let admin = match admin.claim(sender) {
        Ok(admin) => admin,
        Err(e) => return Err(e),
    };
    let new_state = State {
        channel_id,
        ibc_timeout_interval,
        min_disbursal_amount,
        memo,
        to_address,
        admin,
    };
    Ok(
        Outcome {
            new_state: Some(new_state),
            response: ContractResponse::with_method("claim_admin"),
        },
    )
}

} // verus!
