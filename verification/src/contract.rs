//! The contract's entry points, as functions from the stored state, the
//! request and the chain's answers to the outcome.

pub mod execute;
pub mod query;

use crate::admin::Admin;
use crate::error::ContractError;
use crate::msg::{Coin, ExecuteMsg, GetBalanceResponse, InstantiateMsg, QueryMsg, SwapAmountInRoute};
use crate::osmosis::swap_exact_amount_in_bytes;
use crate::response::{method_response, ContractResponse, OutgoingMsgView, ResponseView};
use crate::state::State;
use cosmwasm_std::StdError;
use vstd::pervasive::unreached;
use vstd::prelude::*;
use self::execute::{
    cancel_transfer_admin_result, claim_admin_result, disburse_funds_result,
    disbursal_timeout_fits, swap_exact_amount_in_result, transfer_admin_result,
};

verus! {

/// What a request learns of the chain it runs on.
#[derive(Debug, Clone, PartialEq, Eq)]
pub struct ExecEnv {
    /// The contract's own address.
    pub contract_address: String,
    /// The block time, in nanoseconds since the epoch.
    pub block_time: u64,
}

/// What a successful request leaves behind: the state to store, if it
/// changed, and the response.
#[derive(Debug, Clone, PartialEq, Eq)]
pub struct Outcome {
    pub new_state: Option<State>,
    pub response: ContractResponse,
}

/// An outcome seen as plain values.
pub struct OutcomeView {
    pub new_state: Option<State>,
    pub response: ResponseView,
}

impl View for Outcome {
    type V = OutcomeView;

    open spec fn view(&self) -> OutcomeView {
        OutcomeView { new_state: self.new_state, response: self.response@ }
    }
}

/// A request's result seen as plain values.
pub open spec fn outcome_view(r: Result<Outcome, ContractError>) -> Result<OutcomeView, ContractError> {
    match r {
        Ok(o) => Ok(o@),
        Err(e) => Err(e),
    }
}

/// What a request needs to learn from the chain before it can be decided.
#[derive(Debug, Clone, PartialEq, Eq)]
pub enum ChainQuery {
    /// Nothing beyond the stored state.
    Nothing,
    /// The bank balance of `address` in `denom`.
    Balance { address: String, denom: String },
    /// Whether `address` is a valid address on this chain.
    ValidateAddress { address: String },
}

/// The chain's answer to a `ChainQuery`.
#[derive(Debug, PartialEq)]
pub enum ChainAnswer {
    Nothing,
    Balance(Result<Coin, StdError>),
    ValidatedAddress(Result<String, StdError>),
}

/// The chain query that `msg` needs.
pub open spec fn chain_query_for(env: ExecEnv, msg: ExecuteMsg) -> ChainQuery {
    match msg {
        ExecuteMsg::DisburseFunds { denom } => ChainQuery::Balance {
            address: env.contract_address,
            denom,
        },
        ExecuteMsg::TransferAdmin { to } => ChainQuery::ValidateAddress { address: to },
        _ => ChainQuery::Nothing,
    }
}

/// `answer` is of the kind `query` asks for.
pub open spec fn answers(query: ChainQuery, answer: ChainAnswer) -> bool {
    match query {
        ChainQuery::Nothing => answer is Nothing,
        ChainQuery::Balance { .. } => answer is Balance,
        ChainQuery::ValidateAddress { .. } => answer is ValidatedAddress,
    }
}

/// What the contract answers to `msg` from `sender`, given the stored state
/// and the chain's answer to the query the message needs.
pub open spec fn execute_result(
    state: State,
    env: ExecEnv,
    sender: Seq<char>,
    msg: ExecuteMsg,
    answer: ChainAnswer,
) -> Result<OutcomeView, ContractError> {
    match msg {
        ExecuteMsg::DisburseFunds { .. } => disburse_funds_result(state, env, answer->Balance_0),
        ExecuteMsg::SwapExactAmountIn { routes, token_in, token_out_min_amount } =>
            swap_exact_amount_in_result(
            state,
            env,
            sender,
            routes@,
            token_in,
            token_out_min_amount@,
        ),
        ExecuteMsg::TransferAdmin { .. } => transfer_admin_result(
            state,
            sender,
            answer->ValidatedAddress_0,
        ),
        ExecuteMsg::CancelTransferAdmin {} => cancel_transfer_admin_result(state, sender),
        ExecuteMsg::ClaimAdmin {} => claim_admin_result(state, sender),
    }
}

/// The request can be decided: the answer fits the query, and a disbursal
/// that goes ahead has a timeout the chain can represent.
pub open spec fn execute_ready(state: State, env: ExecEnv, msg: ExecuteMsg, answer: ChainAnswer) -> bool {
    &&& answers(chain_query_for(env, msg), answer)
    &&& msg is DisburseFunds ==> (answer->Balance_0 matches Ok(coin) && coin.amount
        >= state.min_disbursal_amount ==> disbursal_timeout_fits(state, env))
}

/// The state a new contract starts from.
pub open spec fn instantiate_result(msg: InstantiateMsg, validated_admin: Result<String, StdError>) -> Result<
    OutcomeView,
    ContractError,
> {
    match validated_admin {
        Err(e) => Err(ContractError::Std(e)),
        Ok(admin) => Ok(
            OutcomeView {
                new_state: Some(
                    State {
                        channel_id: msg.channel_id,
                        ibc_timeout_interval: msg.ibc_timeout_interval,
                        min_disbursal_amount: msg.min_disbursal_amount,
                        memo: msg.memo,
                        to_address: msg.to_address,
                        admin: Admin::Settled { current: admin },
                    },
                ),
                response: method_response("instantiate"@, seq![]),
            },
        ),
    }
}

/// Creates the contract's state from `msg`; `validated_admin` is what the
/// chain's address validation answered for `msg.admin`.
pub fn instantiate(msg: InstantiateMsg, validated_admin: Result<String, StdError>) -> (r: Result<
    Outcome,
    ContractError,
>)
    ensures
        outcome_view(r) == instantiate_result(msg, validated_admin),
        validated_admin matches Err(e) ==> r == Err::<Outcome, ContractError>(ContractError::Std(e)),
        validated_admin matches Ok(admin) ==> {
            &&& r is Ok
            &&& r->Ok_0.response@.attributes == seq![("method"@, "instantiate"@)]
            &&& r->Ok_0.response@.messages.len() == 0
            &&& r->Ok_0.new_state == Some(
                State {
                    channel_id: msg.channel_id,
                    ibc_timeout_interval: msg.ibc_timeout_interval,
                    min_disbursal_amount: msg.min_disbursal_amount,
                    memo: msg.memo,
                    to_address: msg.to_address,
                    admin: Admin::Settled { current: admin },
                },
            )
        },
{
    let admin = match validated_admin {
        Ok(admin) => admin,
        Err(e) => return Err(ContractError::Std(e)),
    };
    let InstantiateMsg {
        min_disbursal_amount,
        channel_id,
        ibc_timeout_interval,
        memo,
        to_address,
        admin: _,
    } = msg;
    let state = State {
        channel_id,
        ibc_timeout_interval,
        min_disbursal_amount,
        memo,
        to_address,
        admin: Admin::Settled { current: admin },
    };
    Ok(Outcome { new_state: Some(state), response: ContractResponse::with_method("instantiate") })
}

/// The chain query that `msg` needs before `execute` can decide it.
pub fn chain_query(env: &ExecEnv, msg: &ExecuteMsg) -> (q: ChainQuery)
    ensures
        q == chain_query_for(*env, *msg),
        *msg matches ExecuteMsg::DisburseFunds { denom } ==> q == (ChainQuery::Balance {
            address: env.contract_address,
            denom,
        }),
        *msg matches ExecuteMsg::TransferAdmin { to } ==> q == (ChainQuery::ValidateAddress {
            address: to,
        }),
        (msg is CancelTransferAdmin || msg is ClaimAdmin || msg is SwapExactAmountIn) ==> (q
            is Nothing),
{
    match msg {
        ExecuteMsg::DisburseFunds { denom } => ChainQuery::Balance {
            address: env.contract_address.clone(),
            denom: denom.clone(),
        },
        ExecuteMsg::TransferAdmin { to } => ChainQuery::ValidateAddress { address: to.clone() },
        _ => ChainQuery::Nothing,
    }
}

/// Executes `msg` from `sender` against the stored `state`; `answer` is the
/// chain's answer to `chain_query(env, &msg)`.
pub fn execute(state: State, env: &ExecEnv, sender: &String, msg: ExecuteMsg, answer: ChainAnswer) -> (r:
    Result<Outcome, ContractError>)
    requires
        execute_ready(state, *env, msg, answer),
    ensures
        outcome_view(r) == execute_result(state, *env, sender@, msg, answer),
        msg is DisburseFunds ==> (answer->Balance_0 matches Ok(coin) ==> if coin.amount
            < state.min_disbursal_amount {
            r matches Err(ContractError::InsufficientFunds {})
        } else {
            &&& r matches Ok(o)
            &&& r->Ok_0.new_state is None
            &&& r->Ok_0.response@.messages == seq![
                OutgoingMsgView::IbcTransfer {
                    channel_id: state.channel_id@,
                    to_address: state.to_address@,
                    amount: coin@,
                    timeout_timestamp: (env.block_time + state.ibc_timeout_interval
                        * 1_000_000_000) as u64,
                    memo: Some(state.memo@),
                },
            ]
        }),
        msg is TransferAdmin ==> (answer->ValidatedAddress_0 matches Ok(to) ==> (sender@
            == state.admin.current_admin()@ ==> {
            &&& r is Ok
            &&& r->Ok_0.new_state == Some(
                State { admin: Admin::Transferring { from: state.admin.current_admin(), to }, ..state },
            )
        })),
        msg matches ExecuteMsg::SwapExactAmountIn { routes, token_in, token_out_min_amount } ==> (
        if sender@ == state.admin.current_admin()@ {
            &&& r is Ok
            &&& r->Ok_0.new_state is None
            &&& r->Ok_0.response@.messages == seq![
                OutgoingMsgView::Any {
                    type_url: "/osmosis.poolmanager.v1beta1.MsgSwapExactAmountIn"@,
                    value: swap_exact_amount_in_bytes(
                        env.contract_address@,
                        routes@.map_values(|x: SwapAmountInRoute| (x.pool_id, x.token_out_denom@)),
                        token_in.denom@,
                        token_in.amount,
                        token_out_min_amount@,
                    ),
                },
            ]
        } else {
            r matches Err(ContractError::Unauthorized {})
        }),
{
    match msg {
        ExecuteMsg::DisburseFunds { denom: _ } => match answer {
            ChainAnswer::Balance(balance) => execute::disburse_funds(state, env, balance),
            _ => unreached(),
        },
        ExecuteMsg::SwapExactAmountIn { routes, token_in, token_out_min_amount } =>
            execute::swap_exact_amount_in(
            state,
            env,
            sender,
            routes,
            token_in,
            token_out_min_amount,
        ),
        ExecuteMsg::TransferAdmin { to: _ } => match answer {
            ChainAnswer::ValidatedAddress(validated_to) => execute::transfer_admin(
                state,
                sender,
                validated_to,
            ),
            _ => unreached(),
        },
        ExecuteMsg::CancelTransferAdmin {} => execute::cancel_transfer_admin(state, sender),
        ExecuteMsg::ClaimAdmin {} => execute::claim_admin(state, sender),
    }
}

/// Answers `msg`; `balance` is what the bank reported for the contract's
/// address in the requested denomination.
pub fn query(msg: QueryMsg, balance: Result<Coin, StdError>) -> (r: Result<GetBalanceResponse, StdError>)
    ensures
        match balance {
            Ok(coin) => r == Ok::<GetBalanceResponse, StdError>(GetBalanceResponse { balance: coin }),
            Err(e) => r == Err::<GetBalanceResponse, StdError>(e),
        },
{
    match msg {
        QueryMsg::GetBalance { denom: _ } => query::balance(balance),
    }
}

/// No request changes the configuration: a request that stores a new state
/// changes at most the admin record, and disbursals and swaps store nothing.
pub proof fn lemma_execute_keeps_config(
    state: State,
    env: ExecEnv,
    sender: Seq<char>,
    msg: ExecuteMsg,
    answer: ChainAnswer,
)
    ensures
        execute_result(state, env, sender, msg, answer) matches Ok(o) ==> match o.new_state {
            Some(s) => s.same_config(state),
            None => true,
        },
        (msg is DisburseFunds || msg is SwapExactAmountIn) ==> (execute_result(
            state,
            env,
            sender,
            msg,
            answer,
        ) matches Ok(o) ==> o.new_state is None),
{
}

/// Swaps, transfers and cancellations from anyone but the current admin, and
/// claims from anyone but the pending candidate, are refused as unauthorized
/// (a transfer whose target the chain rejected fails on that first).
pub proof fn lemma_unauthorized_refused(
    state: State,
    env: ExecEnv,
    sender: Seq<char>,
    msg: ExecuteMsg,
    answer: ChainAnswer,
)
    ensures
        (msg is SwapExactAmountIn || msg is CancelTransferAdmin || (msg is TransferAdmin
            && answer->ValidatedAddress_0 is Ok)) && sender != state.admin.current_admin()@
            ==> execute_result(state, env, sender, msg, answer) == Err::<OutcomeView, ContractError>(
            ContractError::Unauthorized {},
        ),
        msg is ClaimAdmin && !(state.admin.pending_candidate() matches Some(c) && sender == c@)
            ==> execute_result(state, env, sender, msg, answer) == Err::<OutcomeView, ContractError>(
            ContractError::Unauthorized {},
        ),
{
}

/// Handing the contract over by messages: after the admin names `to` as
/// candidate, the admin can still swap and `to` cannot; once `to` claims,
/// `to` is the settled admin, can swap, and the previous admin cannot.
pub proof fn lemma_handover_by_messages(
    state: State,
    env: ExecEnv,
    to: String,
    routes: Seq<SwapAmountInRoute>,
    token_in: Coin,
    token_out_min_amount: Seq<char>,
)
    requires
        to@ != state.admin.current_admin()@,
    ensures
        ({
            let old_admin = state.admin.current_admin()@;
            let transferred = transfer_admin_result(state, old_admin, Ok(to));
            let pending = transferred->Ok_0.new_state->0;
            let claimed = claim_admin_result(pending, to@);
            let settled = claimed->Ok_0.new_state->0;
            &&& transferred is Ok
            &&& swap_exact_amount_in_result(
                pending,
                env,
                old_admin,
                routes,
                token_in,
                token_out_min_amount,
            ) is Ok
            &&& swap_exact_amount_in_result(pending, env, to@, routes, token_in, token_out_min_amount)
                == Err::<OutcomeView, ContractError>(ContractError::Unauthorized {})
            &&& claimed is Ok
            &&& settled.admin == Admin::Settled { current: to }
            &&& swap_exact_amount_in_result(settled, env, to@, routes, token_in, token_out_min_amount)
                is Ok
            &&& swap_exact_amount_in_result(
                settled,
                env,
                old_admin,
                routes,
                token_in,
                token_out_min_amount,
            ) == Err::<OutcomeView, ContractError>(ContractError::Unauthorized {})
        }),
{
}

/// A disbursal asked for with a balance below the configured minimum is
/// refused with `InsufficientFunds`, whoever asks and whatever the denomination.
pub proof fn lemma_disbursal_refused_below_minimum(
    state: State,
    env: ExecEnv,
    sender: Seq<char>,
    denom: String,
    coin: Coin,
)
    requires
        coin.amount < state.min_disbursal_amount,
    ensures
        execute_result(
            state,
            env,
            sender,
            ExecuteMsg::DisburseFunds { denom },
            ChainAnswer::Balance(Ok(coin)),
        ) == Err::<OutcomeView, ContractError>(ContractError::InsufficientFunds {}),
{
}

/// A disbursal at or above the minimum stores nothing and sends exactly one
/// IBC transfer: the whole balance, over the configured channel, to the
/// configured address, with the configured memo, timing out
/// `ibc_timeout_interval` seconds after the block time.
pub proof fn lemma_disbursal_sends_whole_balance(
    state: State,
    env: ExecEnv,
    sender: Seq<char>,
    denom: String,
    coin: Coin,
)
    requires
        coin.amount >= state.min_disbursal_amount,
        disbursal_timeout_fits(state, env),
    ensures
        ({
            let r = execute_result(
                state,
                env,
                sender,
                ExecuteMsg::DisburseFunds { denom },
                ChainAnswer::Balance(Ok(coin)),
            );
            &&& r is Ok
            &&& r->Ok_0.new_state is None
            &&& r->Ok_0.response.messages.len() == 1
            &&& r->Ok_0.response.messages[0] matches OutgoingMsgView::IbcTransfer {
                channel_id,
                to_address,
                amount,
                timeout_timestamp,
                memo,
            } && channel_id == state.channel_id@ && to_address == state.to_address@
                && amount.denom == coin.denom@ && amount.amount == coin.amount && timeout_timestamp
                == env.block_time + state.ibc_timeout_interval * 1_000_000_000 && memo == Some(
                state.memo@,
            )
        }),
{
}

/// The admin can always name a candidate, also while another hand-over is
/// under way: the stored admin record becomes a transfer from the admin to
/// the validated target, and nothing else in the state changes.
pub proof fn lemma_admin_transfer_names_candidate(
    state: State,
    env: ExecEnv,
    requested: String,
    to: String,
)
    ensures
        ({
            let r = execute_result(
                state,
                env,
                state.admin.current_admin()@,
                ExecuteMsg::TransferAdmin { to: requested },
                ChainAnswer::ValidatedAddress(Ok(to)),
            );
            &&& r is Ok
            &&& r->Ok_0.new_state matches Some(s) && s.same_config(state) && s.admin
                == Admin::Transferring { from: state.admin.current_admin(), to }
        }),
{
}

/// A swap asked for by the admin stores nothing and dispatches exactly one
/// message: the pool-manager swap type, encoding the contract as sender and
/// the requested routes (every hop, in order), input coin and minimum output.
pub proof fn lemma_swap_encodes_request(
    state: State,
    env: ExecEnv,
    routes: Vec<SwapAmountInRoute>,
    token_in: Coin,
    token_out_min_amount: String,
)
    ensures
        ({
            let r = execute_result(
                state,
                env,
                state.admin.current_admin()@,
                ExecuteMsg::SwapExactAmountIn { routes, token_in, token_out_min_amount },
                ChainAnswer::Nothing,
            );
            let hops = Seq::new(
                routes@.len(),
                |i: int| (routes@[i].pool_id, routes@[i].token_out_denom@),
            );
            &&& r is Ok
            &&& r->Ok_0.new_state is None
            &&& r->Ok_0.response.messages == seq![
                OutgoingMsgView::Any {
                    type_url: "/osmosis.poolmanager.v1beta1.MsgSwapExactAmountIn"@,
                    value: swap_exact_amount_in_bytes(
                        env.contract_address@,
                        hops,
                        token_in.denom@,
                        token_in.amount,
                        token_out_min_amount@,
                    ),
                },
            ]
        }),
{
    let hops = Seq::new(
        routes@.len(),
        |i: int| (routes@[i].pool_id, routes@[i].token_out_denom@),
    );
    assert(crate::msg::route_views(routes@) =~= hops);
}

/// A new contract stores exactly the configuration of its message, with the
/// validated admin settled.
pub proof fn lemma_instantiate_stores_config(msg: InstantiateMsg, admin: String)
    ensures
        ({
            let r = instantiate_result(msg, Ok(admin));
            &&& r is Ok
            &&& r->Ok_0.new_state matches Some(s) && s.channel_id == msg.channel_id
                && s.ibc_timeout_interval == msg.ibc_timeout_interval && s.min_disbursal_amount
                == msg.min_disbursal_amount && s.memo == msg.memo && s.to_address
                == msg.to_address && s.admin == Admin::Settled { current: admin }
        }),
{
}

/// The minimum a contract is created with is enforced: right after
/// instantiation, a disbursal of less than `msg.min_disbursal_amount` is refused.
pub proof fn lemma_instantiated_minimum_enforced(
    msg: InstantiateMsg,
    admin: String,
    env: ExecEnv,
    sender: Seq<char>,
    denom: String,
    coin: Coin,
)
    requires
        coin.amount < msg.min_disbursal_amount,
    ensures
        execute_result(
            instantiate_result(msg, Ok(admin))->Ok_0.new_state->0,
            env,
            sender,
            ExecuteMsg::DisburseFunds { denom },
            ChainAnswer::Balance(Ok(coin)),
        ) == Err::<OutcomeView, ContractError>(ContractError::InsufficientFunds {}),
{
}

} // verus!
