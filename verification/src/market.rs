//! The events that the engine consumes and the commands that it emits.

use vstd::prelude::*;
use crate::decimal::Decimal;

verus! {

/// A traded pair of currency codes.
#[derive(Clone, Copy, Debug, PartialEq, Eq)]
pub struct CcyPair<'a> {
    pub base: &'a str,
    pub quoted: &'a str,
}

/// Bitcoin quoted against the US dollar.
pub fn btc_usd() -> (pair: CcyPair<'static>)
    ensures
        pair.base@ == "USD"@,
        pair.quoted@ == "BTC"@,
{
    CcyPair { base: "USD", quoted: "BTC" }
}

/// Bitcoin quoted against the pound sterling.
pub fn btc_gbp() -> (pair: CcyPair<'static>)
    ensures
        pair.base@ == "GBP"@,
        pair.quoted@ == "BTC"@,
{
    CcyPair { base: "GBP", quoted: "BTC" }
}

/// One aggregation interval of historical price.
#[derive(Clone, Copy, Debug, PartialEq, Eq, Structural)]
pub struct TickPrice {
    pub timestamp: Decimal,
    pub open: Decimal,
    pub high: Decimal,
    pub low: Decimal,
    pub close: Decimal,
    pub volume: Decimal,
}

/// One level of an order book: a price and the quantity resting at it.
#[derive(Clone, Copy, Debug, PartialEq, Eq, Structural)]
pub struct OrderRow {
    pub num: i32,
    pub px: Decimal,
    pub qty: Decimal,
}

/// A point-in-time ladder of bids and asks, in the order the feed gave them.
#[derive(Debug, PartialEq, Eq)]
pub struct OrderL2 {
    pub seqnum: i32,
    pub event: String,
    pub channel: String,
    pub symbol: String,
    pub bids: Vec<OrderRow>,
    pub asks: Vec<OrderRow>,
}

/// What the message parser hands to the engine.
#[derive(Debug, PartialEq, Eq)]
pub enum MarketEvent {
    /// A market-data tick; each part may be absent.
    MarketData {
        price_bar: Option<TickPrice>,
        book: Option<OrderL2>,
        last_trade_price: Option<Decimal>,
    },
    /// The identifiers of the orders found open on the exchange.
    OpenOrdersSnapshot { order_ids: Vec<String> },
}

/// What the engine asks the order gateway to do.
#[derive(Debug, PartialEq, Eq)]
pub enum Command {
    /// Cancel each of these orders. The list is never empty.
    CancelOrders { order_ids: Vec<String> },
    /// Place a new order at this price.
    SubmitNewOrder { reference_price: Decimal },
}

impl Command {
    /// A cancel command names at least one order; a new order needs nothing
    /// more than its price.
    pub open spec fn is_well_formed(self) -> bool {
        match self {
            Command::CancelOrders { order_ids } => order_ids@.len() > 0,
            Command::SubmitNewOrder { .. } => true,
        }
    }
}

} // verus!
