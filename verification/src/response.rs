use crate::msg::{Coin, CoinView};
use vstd::prelude::*;

verus! {

/// A key/value pair the contract reports with a response.
#[derive(Debug, Clone, PartialEq, Eq)]
pub struct Attribute {
    pub key: String,
    pub value: String,
}

impl View for Attribute {
    type V = (Seq<char>, Seq<char>);

    open spec fn view(&self) -> (Seq<char>, Seq<char>) {
        (self.key@, self.value@)
    }
}

/// A message the contract asks the chain to dispatch after it returns.
#[derive(Debug, Clone, PartialEq, Eq)]
pub enum OutgoingMsg {
    /// An ICS-20 transfer of `amount` over `channel_id` to `to_address`,
    /// timing out at `timeout_timestamp` (nanoseconds since the epoch).
    IbcTransfer {
        channel_id: String,
        to_address: String,
        amount: Coin,
        timeout_timestamp: u64,
        memo: Option<String>,
    },
    /// A protobuf message given by its type URL and encoded bytes.
    Any { type_url: String, value: Vec<u8> },
}

/// An outgoing message seen as plain values.
pub enum OutgoingMsgView {
    IbcTransfer {
        channel_id: Seq<char>,
        to_address: Seq<char>,
        amount: CoinView,
        timeout_timestamp: u64,
        memo: Option<Seq<char>>,
    },
    Any { type_url: Seq<char>, value: Seq<u8> },
}

impl View for OutgoingMsg {
    type V = OutgoingMsgView;

    open spec fn view(&self) -> OutgoingMsgView {
        match self {
            OutgoingMsg::IbcTransfer { channel_id, to_address, amount, timeout_timestamp, memo } =>
                OutgoingMsgView::IbcTransfer {
                channel_id: channel_id@,
                to_address: to_address@,
                amount: amount@,
                timeout_timestamp: *timeout_timestamp,
                memo: match memo {
                    Some(m) => Some(m@),
                    None => None,
                },
            },
            OutgoingMsg::Any { type_url, value } => OutgoingMsgView::Any {
                type_url: type_url@,
                value: value@,
            },
        }
    }
}

/// What the contract answers to a request that succeeds: attributes to
/// report and messages to dispatch, each in order.
#[derive(Debug, Clone, PartialEq, Eq)]
pub struct ContractResponse {
    pub attributes: Vec<Attribute>,
    pub messages: Vec<OutgoingMsg>,
}

/// A response seen as plain values.
pub struct ResponseView {
    pub attributes: Seq<(Seq<char>, Seq<char>)>,
    pub messages: Seq<OutgoingMsgView>,
}

impl View for ContractResponse {
    type V = ResponseView;

    open spec fn view(&self) -> ResponseView {
        ResponseView {
            attributes: self.attributes@.map_values(|a: Attribute| a@),
            messages: self.messages@.map_values(|m: OutgoingMsg| m@),
        }
    }
}

/// A response that reports which handler ran (`method`) and carries `messages`.
pub open spec fn method_response(method: Seq<char>, messages: Seq<OutgoingMsgView>) -> ResponseView {
    ResponseView { attributes: seq![("method"@, method)], messages }
}

impl ContractResponse {
    /// A response reporting the handler `method`, with no messages yet.
    pub fn with_method(method: &str) -> (r: ContractResponse)
        ensures
            r@ == method_response(method@, seq![]),
    {
        let attribute = Attribute { key: String::from_str("method"), value: String::from_str(method) };
        let r = ContractResponse { attributes: vec![attribute], messages: Vec::new() };
        assert(r@.attributes =~= seq![("method"@, method@)]);
        assert(r@.messages =~= Seq::<OutgoingMsgView>::empty());
        r
    }

    /// Appends `msg` to the messages to dispatch.
    pub fn add_message(self, msg: OutgoingMsg) -> (r: ContractResponse)
        ensures
            r@.attributes == self@.attributes,
            r@.messages == self@.messages.push(msg@),
    {
        let ContractResponse { attributes, mut messages } = self;
        let ghost before = messages@;
        messages.push(msg);
        let r = ContractResponse { attributes, messages };
        assert(r@.messages =~= before.map_values(|m: OutgoingMsg| m@).push(msg@));
        r
    }
}

} // verus!
