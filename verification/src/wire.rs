//! Routing of the exchange's messages: which channel and event kind becomes
//! which market event.

use vstd::prelude::*;
use crate::decimal::Decimal;
use crate::market::{MarketEvent, OrderL2, TickPrice};
use crate::subscriptions::same_text;

verus! {

/// What the routing reads of one message of the exchange.
#[derive(Debug, PartialEq, Eq)]
pub struct WireMessage {
    /// The channel the message came on.
    pub channel: String,
    /// The kind of event it reports.
    pub event: String,
    /// The last trade price of a ticker message, where it holds one.
    pub last_trade_price: Option<Decimal>,
    /// The price bar of a prices message, where it holds one.
    pub price: Option<TickPrice>,
    /// The order book of an l2 message, where it holds one.
    pub book: Option<OrderL2>,
    /// The identifiers of the open orders of a trading message, where it
    /// lists any.
    pub orders: Option<Vec<String>>,
}

/// A market-data tick that holds a last trade price alone.
pub open spec fn ticker_event(px: Decimal) -> MarketEvent {
    MarketEvent::MarketData { price_bar: None, book: None, last_trade_price: Some(px) }
}

/// A market-data tick that holds the price bar of a prices message, if any.
pub open spec fn prices_event(bar: Option<TickPrice>) -> MarketEvent {
    MarketEvent::MarketData { price_bar: bar, book: None, last_trade_price: None }
}

/// A market-data tick that holds an order book alone.
pub open spec fn book_event(book: OrderL2) -> MarketEvent {
    MarketEvent::MarketData { price_bar: None, book: Some(book), last_trade_price: None }
}

/// The event that a ticker message becomes.
pub open spec fn ticker_route(msg: WireMessage) -> Option<MarketEvent> {
    match msg.last_trade_price {
        Some(px) => Some(ticker_event(px)),
        None => None,
    }
}

/// The event that an l2 message becomes.
pub open spec fn book_route(msg: WireMessage) -> Option<MarketEvent> {
    match msg.book {
        Some(book) => Some(book_event(book)),
        None => None,
    }
}

/// The event that a trading message becomes: a snapshot that lists at least
/// one open order reports those orders; anything else reports nothing.
pub open spec fn trading_route(msg: WireMessage) -> Option<MarketEvent> {
    match msg.orders {
        Some(order_ids) => if msg.event@ == "snapshot"@ && order_ids@.len() > 0 {
            Some(MarketEvent::OpenOrdersSnapshot { order_ids })
        } else {
            None
        },
        None => None,
    }
}

/// The event that a message becomes. Subscription acknowledgements, balances
/// and unknown channels become nothing.
pub open spec fn route(msg: WireMessage) -> Option<MarketEvent> {
    if msg.event@ == "subscribed"@ {
        None
    } else if msg.channel@ == "ticker"@ {
        ticker_route(msg)
    } else if msg.channel@ == "prices"@ {
        Some(prices_event(msg.price))
    } else if msg.channel@ == "balances"@ {
        None
    } else if msg.channel@ == "l2"@ {
        book_route(msg)
    } else if msg.channel@ == "trading"@ {
        trading_route(msg)
    } else {
        None
    }
}

/// Whether `events` holds exactly the event `routed`, or nothing where there
/// is none.
pub open spec fn holds_exactly(
    events: Option<Vec<MarketEvent>>,
    routed: Option<MarketEvent>,
) -> bool {
    match events {
        Some(list) => list@.len() == 1 && routed == Some(list@[0]),
        None => routed is None,
    }
}

/// Turns a ticker message into a tick with its last trade price.
pub fn handle_ticker(msg: WireMessage) -> (events: Option<Vec<MarketEvent>>)
    ensures
        holds_exactly(events, ticker_route(msg)),
{
    match msg.last_trade_price {
        Some(px) => Some(
            vec![
                MarketEvent::MarketData { price_bar: None, book: None, last_trade_price: Some(px) },
            ],
        ),
        None => None,
    }
}

/// Turns a prices message into a tick with its price bar, if it has one.
pub fn handle_prices(msg: WireMessage) -> (events: Option<Vec<MarketEvent>>)
    ensures
        holds_exactly(events, Some(prices_event(msg.price))),
{
    Some(vec![MarketEvent::MarketData { price_bar: msg.price, book: None, last_trade_price: None }])
}

/// Turns an l2 message into a tick with its order book.
pub fn handle_l2(msg: WireMessage) -> (events: Option<Vec<MarketEvent>>)
    ensures
        holds_exactly(events, book_route(msg)),
{
    match msg.book {
        Some(book) => Some(
            vec![
                MarketEvent::MarketData { price_bar: None, book: Some(book), last_trade_price: None },
            ],
        ),
        None => None,
    }
}

/// Turns a trading snapshot into the list of the orders found open.
pub fn handle_trading(msg: WireMessage) -> (events: Option<Vec<MarketEvent>>)
    ensures
        holds_exactly(events, trading_route(msg)),
{
    let is_snapshot: bool = same_text(msg.event.as_str(), "snapshot");
    match msg.orders {
        Some(order_ids) => {
            if is_snapshot && order_ids.len() > 0 {
                Some(vec![MarketEvent::OpenOrdersSnapshot { order_ids }])
            } else {
                None
            }
        },
        None => None,
    }
}

/// Routes one message of the exchange to the event it stands for.
pub fn handle_api_response(msg: WireMessage) -> (events: Option<Vec<MarketEvent>>)
    ensures
        holds_exactly(events, route(msg)),
{
    if same_text(msg.event.as_str(), "subscribed") {
        None
    } else if same_text(msg.channel.as_str(), "ticker") {
        handle_ticker(msg)
    } else if same_text(msg.channel.as_str(), "prices") {
        handle_prices(msg)
    } else if same_text(msg.channel.as_str(), "balances") {
        None
    } else if same_text(msg.channel.as_str(), "l2") {
        handle_l2(msg)
    } else if same_text(msg.channel.as_str(), "trading") {
        handle_trading(msg)
    } else {
        None
    }
}

} // verus!
