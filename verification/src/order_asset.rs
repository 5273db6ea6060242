use vstd::prelude::*;
use crate::amount::Decimal;
use crate::amount::Uint256;
use crate::amount::representable;
use crate::amount::scale_amount;
use crate::amount::scaled_spec;
use crate::token::Token;
use crate::token::TokenView;

verus! {

/// One normalized leg at the specification level.
pub struct AssetView {
    pub start_amount: Decimal,
    pub end_amount: Decimal,
    pub settled_amount: Option<Decimal>,
    pub symbol: Seq<char>,
    pub price: Decimal,
}

/// The normalized view of one leg of an order: amounts at human scale,
/// the token's symbol, and the unit price used for this order.
#[derive(Clone, Debug, PartialEq, Eq)]
pub struct OrderAsset {
    pub start_amount: Decimal,
    pub end_amount: Decimal,
    pub settled_amount: Option<Decimal>,
    pub symbol: String,
    pub price: Decimal,
}

impl View for OrderAsset {
    type V = AssetView;

    open spec fn view(&self) -> AssetView {
        AssetView {
            start_amount: self.start_amount,
            end_amount: self.end_amount,
            settled_amount: self.settled_amount,
            symbol: self.symbol@,
            price: self.price,
        }
    }
}

/// Whether every raw amount of the leg can be held exactly after scaling.
pub open spec fn amounts_representable(start: Uint256, end: Uint256, settled: Option<Uint256>) -> bool {
    representable(start) && representable(end) && (settled matches Some(s) ==> representable(s))
}

/// The normalized leg built from a token and raw base-unit amounts: each
/// amount becomes the exact quantity `raw / 10^decimals`.
pub open spec fn asset_spec(
    token: TokenView,
    start: Uint256,
    end: Uint256,
    settled: Option<Uint256>,
    price: Decimal,
) -> AssetView {
    AssetView {
        start_amount: scaled_spec(start, token.decimals),
        end_amount: scaled_spec(end, token.decimals),
        settled_amount: match settled {
            Some(s) => Some(scaled_spec(s, token.decimals)),
            None => None,
        },
        symbol: token.symbol,
        price,
    }
}

impl OrderAsset {
    /// Builds the normalized leg; fails exactly when some raw amount is too
    /// large to hold after scaling.
    pub fn new(
        token: &Token,
        start: Uint256,
        end: Uint256,
        settled: Option<Uint256>,
        price: Decimal,
    ) -> (r: Option<OrderAsset>)
        ensures
            r is Some <==> amounts_representable(start, end, settled),
            r matches Some(a) ==> a@ == asset_spec(token@, start, end, settled, price),
    {
        let start_amount = match scale_amount(start, token.decimals) {
            Some(d) => d,
            None => {
                return None;
            },
        };
        let end_amount = match scale_amount(end, token.decimals) {
            Some(d) => d,
            None => {
                return None;
            },
        };
        let settled_amount = match settled {
            Some(s) => match scale_amount(s, token.decimals) {
                Some(d) => Some(d),
                None => {
                    return None;
                },
            },
            None => None,
        };
        Some(
            OrderAsset {
                start_amount,
                end_amount,
                settled_amount,
                symbol: token.symbol.clone(),
                price,
            },
        )
    }
}

} // verus!
