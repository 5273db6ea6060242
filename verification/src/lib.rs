//! Verified core of an on-chain order-flow indexer.
//!
//! The library models feed orders with plain values, enriches each order with
//! token identity and prices, decodes the order's binary payload, and
//! accumulates enriched records until a cancellation-triggered flush. All
//! decisions are verified; network and disk work stays outside.

pub mod address;
pub mod amount;
pub mod decode;
pub mod enrich;
pub mod feed;
pub mod hexstr;
pub mod indexer;
pub mod order;
pub mod order_asset;
pub mod order_details;
pub mod token;
