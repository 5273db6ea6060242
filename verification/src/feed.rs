use vstd::prelude::*;
use crate::address::Address;
use crate::amount::Uint256;

verus! {

/// The kind of order the protocol published.
#[derive(Clone, Copy, Debug, PartialEq, Eq, Structural)]
pub enum OrderType {
    Dutch,
    DutchV2,
    Limit,
}

/// The order's lifecycle state as reported by the feed.
#[derive(Clone, Copy, Debug, PartialEq, Eq, Structural)]
pub enum OrderStatus {
    Open,
    Filled,
    Cancelled,
    Expired,
    Error,
    InsufficientFunds,
}

/// The input side of a trade: a token and a decaying raw amount range.
#[derive(Clone, Copy, Debug, PartialEq, Eq)]
pub struct InputLeg {
    pub token: Address,
    pub start_amount: Uint256,
    pub end_amount: Uint256,
}

pub struct InputLegView {
    pub token: Seq<u8>,
    pub start_amount: Uint256,
    pub end_amount: Uint256,
}

impl View for InputLeg {
    type V = InputLegView;

    open spec fn view(&self) -> InputLegView {
        InputLegView {
            token: self.token@,
            start_amount: self.start_amount,
            end_amount: self.end_amount,
        }
    }
}

/// One output side of a trade, with the address the proceeds go to.
#[derive(Clone, Copy, Debug, PartialEq, Eq)]
pub struct OutputLeg {
    pub token: Address,
    pub start_amount: Uint256,
    pub end_amount: Uint256,
    pub recipient: Address,
}

pub struct OutputLegView {
    pub token: Seq<u8>,
    pub start_amount: Uint256,
    pub end_amount: Uint256,
    pub recipient: Seq<u8>,
}

impl View for OutputLeg {
    type V = OutputLegView;

    open spec fn view(&self) -> OutputLegView {
        OutputLegView {
            token: self.token@,
            start_amount: self.start_amount,
            end_amount: self.end_amount,
            recipient: self.recipient@,
        }
    }
}

/// Fill amounts reported once an order settles.
#[derive(Clone, Copy, Debug, PartialEq, Eq)]
pub struct SettledAmount {
    pub amount_in: Option<Uint256>,
    pub amount_out: Uint256,
}

/// A raw order exactly as the feed published it, immutable once received.
#[derive(Clone, Debug, PartialEq, Eq)]
pub struct FeedOrder {
    pub order_hash: String,
    pub chain_id: u64,
    pub created_at: u64,
    pub order_type: OrderType,
    pub order_status: OrderStatus,
    pub input: InputLeg,
    pub outputs: Vec<OutputLeg>,
    pub settled_amounts: Option<Vec<SettledAmount>>,
    pub signature: String,
    pub tx_hash: Option<String>,
    pub encoded_order: String,
}

pub struct FeedOrderView {
    pub order_hash: Seq<char>,
    pub chain_id: u64,
    pub created_at: u64,
    pub order_type: OrderType,
    pub order_status: OrderStatus,
    pub input: InputLegView,
    pub outputs: Seq<OutputLegView>,
    pub settled_amounts: Option<Seq<SettledAmount>>,
    pub signature: Seq<char>,
    pub tx_hash: Option<Seq<char>>,
    pub encoded_order: Seq<char>,
}

impl View for FeedOrder {
    type V = FeedOrderView;

    open spec fn view(&self) -> FeedOrderView {
        FeedOrderView {
            order_hash: self.order_hash@,
            chain_id: self.chain_id,
            created_at: self.created_at,
            order_type: self.order_type,
            order_status: self.order_status,
            input: self.input@,
            outputs: self.outputs@.map_values(|o: OutputLeg| o@),
            settled_amounts: match &self.settled_amounts {
                Some(v) => Some(v@),
                None => None,
            },
            signature: self.signature@,
            tx_hash: match &self.tx_hash {
                Some(t) => Some(t@),
                None => None,
            },
            encoded_order: self.encoded_order@,
        }
    }
}

} // verus!
