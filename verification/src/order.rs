use vstd::prelude::*;
use crate::feed::OrderStatus;
use crate::feed::OrderType;
use crate::order_asset::AssetView;
use crate::order_asset::OrderAsset;
use crate::order_details::DetailsView;
use crate::order_details::OrderDetails;

verus! {

/// An enriched record at the specification level.
pub struct OrderView {
    pub hash: Seq<char>,
    pub chain_id: u64,
    pub created_at: u64,
    pub ty: OrderType,
    pub status: OrderStatus,
    pub input: AssetView,
    pub output: AssetView,
    pub fee: Option<AssetView>,
    pub recipient: Seq<char>,
    pub signature: Seq<char>,
    pub tx: Option<Seq<char>>,
    pub details: Option<DetailsView>,
}

/// The persisted unit: one feed order enriched with token identity, prices
/// and the decoded payload. The hash is its identity.
#[derive(Clone, Debug, PartialEq, Eq)]
pub struct Order {
    pub hash: String,
    pub chain_id: u64,
    pub created_at: u64,
    pub ty: OrderType,
    pub status: OrderStatus,
    pub input: OrderAsset,
    pub output: OrderAsset,
    pub fee: Option<OrderAsset>,
    pub recipient: String,
    pub signature: String,
    pub tx: Option<String>,
    pub details: Option<OrderDetails>,
}

impl View for Order {
    type V = OrderView;

    open spec fn view(&self) -> OrderView {
        OrderView {
            hash: self.hash@,
            chain_id: self.chain_id,
            created_at: self.created_at,
            ty: self.ty,
            status: self.status,
            input: self.input@,
            output: self.output@,
            fee: match &self.fee {
                Some(f) => Some(f@),
                None => None,
            },
            recipient: self.recipient@,
            signature: self.signature@,
            tx: match &self.tx {
                Some(t) => Some(t@),
                None => None,
            },
            details: match &self.details {
                Some(d) => Some(d@),
                None => None,
            },
        }
    }
}

} // verus!
