//! Subscription requests for the exchange's channels.

use vstd::prelude::*;
use vstd::string::StringExecFns;

verus! {

/// Width of one price bar asked of the prices channel, in seconds.
pub const PRICE_GRANULARITY: u32 = 3600;

/// The fields of a subscription request, as plain values.
pub struct SubscriptionFields {
    pub action: Seq<char>,
    pub channel: Seq<char>,
    pub symbol: Option<Seq<char>>,
    pub granularity: Option<u32>,
    pub local_currency: Option<Seq<char>>,
    pub token: Option<Seq<char>>,
}

/// A request to subscribe to one channel; absent fields are left out of the
/// message.
#[derive(Debug, PartialEq, Eq)]
pub struct Subscription {
    pub action: String,
    pub channel: String,
    pub symbol: Option<String>,
    pub granularity: Option<u32>,
    pub local_currency: Option<String>,
    pub token: Option<String>,
}

/// The view of a text that may be absent.
pub open spec fn text_view(text: Option<String>) -> Option<Seq<char>> {
    match text {
        Some(t) => Some(t@),
        None => None,
    }
}

impl View for Subscription {
    type V = SubscriptionFields;

    open spec fn view(&self) -> SubscriptionFields {
        SubscriptionFields {
            action: self.action@,
            channel: self.channel@,
            symbol: text_view(self.symbol),
            granularity: self.granularity,
            local_currency: text_view(self.local_currency),
            token: text_view(self.token),
        }
    }
}

/// The symbol of bitcoin against the currency `base`: "BTC-" and the code.
pub open spec fn btc_symbol(base: Seq<char>) -> Seq<char> {
    "BTC-"@ + base
}

/// A subscription to `channel` that names nothing but the channel.
pub open spec fn plain_subscription(channel: Seq<char>) -> SubscriptionFields {
    SubscriptionFields {
        action: "subscribe"@,
        channel,
        symbol: None,
        granularity: None,
        local_currency: None,
        token: None,
    }
}

/// The five subscriptions of a session that trades bitcoin against `base`:
/// hourly prices, ticker, balances, order book and trading, in this order.
pub open spec fn subscriptions_for(base: Seq<char>) -> Seq<SubscriptionFields> {
    seq![
        SubscriptionFields {
            symbol: Some(btc_symbol(base)),
            granularity: Some(3600u32),
            ..plain_subscription("prices"@)
        },
        SubscriptionFields { symbol: Some(btc_symbol(base)), ..plain_subscription("ticker"@) },
        SubscriptionFields { local_currency: Some(base), ..plain_subscription("balances"@) },
        SubscriptionFields { symbol: Some(btc_symbol(base)), ..plain_subscription("l2"@) },
        plain_subscription("trading"@),
    ]
}

/// The request that authenticates a connection with `token`.
pub open spec fn auth_fields(token: Seq<char>) -> SubscriptionFields {
    SubscriptionFields { token: Some(token), ..plain_subscription("auth"@) }
}

/// Writes the symbol of bitcoin against `base_ccy`.
pub fn symbol_of(base_ccy: &str) -> (symbol: String)
    ensures
        symbol@ == btc_symbol(base_ccy@),
{
    String::from_str("BTC-").concat(base_ccy)
}

fn plain(channel: &str) -> (sub: Subscription)
    ensures
        sub@ == plain_subscription(channel@),
{
    Subscription {
        action: String::from_str("subscribe"),
        channel: String::from_str(channel),
        symbol: None,
        granularity: None,
        local_currency: None,
        token: None,
    }
}

/// Builds the request that authenticates a connection with `token`.
pub fn connect_sub(token: &str) -> (sub: Subscription)
    ensures
        sub@ == auth_fields(token@),
{
    let mut sub: Subscription = plain("auth");
    sub.token = Some(String::from_str(token));
    sub
}

/// Builds the five subscriptions of a session that trades bitcoin against
/// `base_ccy`.
pub fn build_subscriptions(base_ccy: &str) -> (subs: Vec<Subscription>)
    ensures
        subs@.len() == 5,
        forall|i: int| 0 <= i < 5 ==> (#[trigger] subs@[i])@ == subscriptions_for(base_ccy@)[i],
{
    let mut prices: Subscription = plain("prices");
    prices.symbol = Some(symbol_of(base_ccy));
    prices.granularity = Some(PRICE_GRANULARITY);
    let mut ticker: Subscription = plain("ticker");
    ticker.symbol = Some(symbol_of(base_ccy));
    let mut balances: Subscription = plain("balances");
    balances.local_currency = Some(String::from_str(base_ccy));
    let mut book: Subscription = plain("l2");
    book.symbol = Some(symbol_of(base_ccy));
    let trading: Subscription = plain("trading");
    let mut subs: Vec<Subscription> = Vec::new();
    subs.push(prices);
    subs.push(ticker);
    subs.push(balances);
    subs.push(book);
    subs.push(trading);
    subs
}

/// Whether two texts are the same, character for character.
pub fn same_text(a: &str, b: &str) -> (same: bool)
    ensures
        same == (a@ == b@),
{
    String::from_str(a) == String::from_str(b)
}

/// Whether `at` is the first position in `subs` whose request is for
/// `channel`.
pub open spec fn first_for(subs: Seq<Subscription>, channel: Seq<char>, at: int) -> bool {
    &&& 0 <= at < subs.len()
    &&& subs[at].channel@ == channel
    &&& forall|k: int| 0 <= k < at ==> (#[trigger] subs[k]).channel@ != channel
}

/// Looks up the request for `channel`: the first one in `subs` that names it.
pub fn subscription_index(subs: &Vec<Subscription>, channel: &str) -> (found: Option<usize>)
    ensures
        found is Some ==> first_for(subs@, channel@, found->0 as int),
        found is None ==> forall|k: int|
            0 <= k < subs@.len() ==> (#[trigger] subs@[k]).channel@ != channel@,
{
    let mut i: usize = 0;
    while i < subs.len()
        invariant
            i <= subs@.len(),
            forall|k: int| 0 <= k < i ==> (#[trigger] subs@[k]).channel@ != channel@,
        decreases subs@.len() - i,
    {
        if same_text(subs[i].channel.as_str(), channel) {
            return Some(i);
        }
        i = i + 1;
    }
    None
}

} // verus!
