//! The decision engine: accumulated history, the submitted-order counter and
//! the price-threshold rule.

use vstd::prelude::*;
use crate::decimal::Decimal;
use crate::market::{CcyPair, Command, MarketEvent, OrderL2, TickPrice};

verus! {

/// The cap on submitted orders that a new engine starts with.
pub const DEFAULT_MAX_ORDERS: u32 = 2;

/// The mathematical state of an engine.
pub struct EngineState {
    /// Price bars seen so far, newest last.
    pub price_history: Seq<TickPrice>,
    /// Order-book snapshots seen so far, newest last.
    pub book_history: Seq<OrderL2>,
    /// Last-trade prices seen so far, newest last.
    pub last_trade_prices: Seq<Decimal>,
    /// Base currency code of the instrument.
    pub base: Seq<char>,
    /// Quoted currency code of the instrument.
    pub quoted: Seq<char>,
    /// The session's cap on submitted orders.
    pub max_orders: nat,
    /// How many new orders were submitted so far.
    pub submitted: nat,
}

/// The state of an engine that has seen nothing yet and may submit up to
/// `max_orders` orders.
pub open spec fn initial_state(
    base: Seq<char>,
    quoted: Seq<char>,
    max_orders: nat,
) -> EngineState {
    EngineState {
        price_history: Seq::empty(),
        book_history: Seq::empty(),
        last_trade_prices: Seq::empty(),
        base,
        quoted,
        max_orders,
        submitted: 0,
    }
}

/// The threshold rule on the two latest observations: a strictly lower last
/// trade than the latest bar's low signals a buy.
pub open spec fn threshold_fires(s: EngineState) -> bool {
    &&& s.last_trade_prices.len() > 0
    &&& s.price_history.len() > 0
    &&& s.last_trade_prices.last().below_spec(s.price_history.last().low)
}

/// The command that the threshold rule and the cap allow in state `s`.
pub open spec fn signal(s: EngineState) -> Option<Command> {
    if threshold_fires(s) && s.submitted < s.max_orders {
        Some(
            Command::SubmitNewOrder {
                reference_price: s.last_trade_prices.last().discounted_spec(),
            },
        )
    } else {
        None
    }
}

/// The state after `event` was taken in: each part of a market-data tick that
/// is present is appended to its history; nothing else changes.
pub open spec fn absorb(s: EngineState, event: MarketEvent) -> EngineState {
    match event {
        MarketEvent::OpenOrdersSnapshot { .. } => s,
        MarketEvent::MarketData { price_bar, book, last_trade_price } => EngineState {
            price_history: match price_bar {
                Some(bar) => s.price_history.push(bar),
                None => s.price_history,
            },
            book_history: match book {
                Some(snapshot) => s.book_history.push(snapshot),
                None => s.book_history,
            },
            last_trade_prices: match last_trade_price {
                Some(px) => s.last_trade_prices.push(px),
                None => s.last_trade_prices,
            },
            ..s
        },
    }
}

/// The command that answers `event` in state `s`.
pub open spec fn decision(s: EngineState, event: MarketEvent) -> Option<Command> {
    match event {
        MarketEvent::OpenOrdersSnapshot { order_ids } => if order_ids@.len() > 0 {
            Some(Command::CancelOrders { order_ids })
        } else {
            None
        },
        MarketEvent::MarketData { .. } => signal(absorb(s, event)),
    }
}

/// The state after one more order was counted as submitted.
pub open spec fn counted(s: EngineState) -> EngineState {
    EngineState { submitted: s.submitted + 1, ..s }
}

/// The state after `event` was answered and, where the answer was a new
/// order, that order was counted as submitted.
pub open spec fn step_state(s: EngineState, event: MarketEvent) -> EngineState {
    match decision(s, event) {
        Some(Command::SubmitNewOrder { .. }) => counted(absorb(s, event)),
        _ => absorb(s, event),
    }
}

/// The state after the dispatch loop went through the events of one message:
/// it takes a turn for each event in order and stops after the first one that
/// is answered by nothing.
pub open spec fn batch_state(s: EngineState, events: Seq<MarketEvent>) -> EngineState
    decreases events.len(),
{
    if events.len() == 0 {
        s
    } else if decision(s, events.first()) is None {
        absorb(s, events.first())
    } else {
        batch_state(step_state(s, events.first()), events.drop_first())
    }
}

/// The commands that the dispatch loop collects from the events of one
/// message, in order.
pub open spec fn batch_commands(s: EngineState, events: Seq<MarketEvent>) -> Seq<Command>
    decreases events.len(),
{
    if events.len() == 0 {
        Seq::empty()
    } else {
        match decision(s, events.first()) {
            None => Seq::empty(),
            Some(command) => seq![command] + batch_commands(
                step_state(s, events.first()),
                events.drop_first(),
            ),
        }
    }
}

/// The events that a dispatch loop still has before it: `pending` while it is
/// going, none once it has stopped.
pub open spec fn still_ahead(going: bool, pending: Seq<MarketEvent>) -> Seq<MarketEvent> {
    if going {
        pending
    } else {
        Seq::empty()
    }
}

/// Holds the trading state of one session.
pub struct OrderEngine<'a> {
    book_history: Vec<OrderL2>,
    price_history: Vec<TickPrice>,
    last_trade_prices: Vec<Decimal>,
    instrument: &'a CcyPair<'a>,
    max_orders: u32,
    submitted_orders: u32,
}

impl<'a> View for OrderEngine<'a> {
    type V = EngineState;

    closed spec fn view(&self) -> EngineState {
        EngineState {
            price_history: self.price_history@,
            book_history: self.book_history@,
            last_trade_prices: self.last_trade_prices@,
            base: self.instrument.base@,
            quoted: self.instrument.quoted@,
            max_orders: self.max_orders as nat,
            submitted: self.submitted_orders as nat,
        }
    }
}

impl<'a> OrderEngine<'a> {
    /// A fresh engine for `ccy_pair`: empty histories, a cap of two orders,
    /// none submitted.
    pub fn new(ccy_pair: &'a CcyPair<'a>) -> (engine: OrderEngine<'a>)
        ensures
            engine@ == initial_state(ccy_pair.base@, ccy_pair.quoted@, 2),
    {
        OrderEngine::with_max_orders(ccy_pair, DEFAULT_MAX_ORDERS)
    }

    /// A fresh engine for `ccy_pair` that may submit up to `max_orders`
    /// orders.
    pub fn with_max_orders(ccy_pair: &'a CcyPair<'a>, max_orders: u32) -> (engine: OrderEngine<'a>)
        ensures
            engine@ == initial_state(ccy_pair.base@, ccy_pair.quoted@, max_orders as nat),
    {
        OrderEngine {
            book_history: Vec::new(),
            price_history: Vec::new(),
            last_trade_prices: Vec::new(),
            instrument: ccy_pair,
            max_orders,
            submitted_orders: 0,
        }
    }

    /// Counts one more submitted order. The counter is a 32-bit number: the
    /// caller must not count past its largest value.
    pub fn increment_order_count(&mut self)
        requires
            old(self)@.submitted < u32::MAX,
        ensures
            final(self)@ == counted(old(self)@),
    {
        self.submitted_orders = self.submitted_orders + 1;
    }

    /// Takes one event in and answers it with at most one command.
    ///
    /// An open-orders snapshot is answered by cancelling exactly the listed
    /// orders, or by nothing where the list is empty, and leaves the state
    /// alone. A market-data tick is appended to the histories, part by part;
    /// then the threshold rule is evaluated on the latest last-trade price and
    /// the latest bar, and fires only while the cap is not reached.
    pub fn decide(&mut self, event: MarketEvent) -> (command: Option<Command>)
        ensures
            final(self)@ == absorb(old(self)@, event),
            command == decision(old(self)@, event),
    {
        match event {
            MarketEvent::OpenOrdersSnapshot { order_ids } => {
                if order_ids.len() > 0 {
                    Some(Command::CancelOrders { order_ids })
                } else {
                    None
                }
            },
            MarketEvent::MarketData { price_bar, book, last_trade_price } => {
                if let Some(bar) = price_bar {
                    self.price_history.push(bar);
                }
                if let Some(snapshot) = book {
                    self.book_history.push(snapshot);
                }
                if let Some(px) = last_trade_price {
                    self.last_trade_prices.push(px);
                }
                let n_last: usize = self.last_trade_prices.len();
                let n_bars: usize = self.price_history.len();
                if n_last == 0 || n_bars == 0 {
                    return None;
                }
                let px: Decimal = self.last_trade_prices[n_last - 1];
                let low: Decimal = self.price_history[n_bars - 1].low;
                if px.below(low) && self.submitted_orders < self.max_orders {
                    Some(Command::SubmitNewOrder { reference_price: px.discounted() })
                } else {
                    None
                }
            },
        }
    }

    /// One turn of the dispatch loop: answers `event` as `decide` does and,
    /// where the answer is a new order, counts it as submitted before the
    /// next event can be looked at.
    pub fn step(&mut self, event: MarketEvent) -> (command: Option<Command>)
        ensures
            command == decision(old(self)@, event),
            final(self)@ == step_state(old(self)@, event),
    {
        let command: Option<Command> = self.decide(event);
        match &command {
            Some(Command::SubmitNewOrder { .. }) => {
                self.increment_order_count();
            },
            _ => {},
        }
        command
    }

    /// Goes through the events of one message as the dispatch loop does: a
    /// turn for each event in order, up to and including the first one that
    /// is answered by nothing. Returns the commands in the order they came.
    pub fn run_batch(&mut self, events: Vec<MarketEvent>) -> (commands: Vec<Command>)
        ensures
            final(self)@ == batch_state(old(self)@, events@),
            commands@ == batch_commands(old(self)@, events@),
    {
        let ghost start: EngineState = self@;
        let mut pending: Vec<MarketEvent> = events;
        let mut commands: Vec<Command> = Vec::new();
        let mut going: bool = true;
        while going && pending.len() > 0
            invariant
                batch_state(start, events@) == batch_state(self@, still_ahead(going, pending@)),
                batch_commands(start, events@) == commands@ + batch_commands(
                    self@,
                    still_ahead(going, pending@),
                ),
            decreases still_ahead(going, pending@).len() + (if going { 1nat } else { 0nat }),
        {
            let ghost todo: Seq<MarketEvent> = pending@;
            let ghost collected: Seq<Command> = commands@;
            let event: MarketEvent = pending.remove(0);
            assert(pending@ =~= todo.drop_first());
            assert(event == todo.first());
            match self.step(event) {
                Some(command) => {
                    commands.push(command);
                    assert(commands@ + batch_commands(self@, pending@) =~= collected + (
                    seq![command] + batch_commands(self@, pending@)));
                },
                None => {
                    going = false;
                    assert(collected + Seq::<Command>::empty() =~= collected);
                },
            }
        }
        assert(commands@ + Seq::<Command>::empty() =~= commands@);
        commands
    }

    /// The fixed instrument of this session.
    pub fn ccy_pair(&self) -> (pair: &'a CcyPair<'a>)
        ensures
            pair.base@ == self@.base,
            pair.quoted@ == self@.quoted,
    {
        self.instrument
    }

    /// The session's cap on submitted orders.
    pub fn max_orders(&self) -> (cap: u32)
        ensures
            cap == self@.max_orders,
    {
        self.max_orders
    }

    /// How many orders were counted as submitted.
    pub fn submitted_orders(&self) -> (count: u32)
        ensures
            count == self@.submitted,
    {
        self.submitted_orders
    }

    /// The price bars seen so far, newest last.
    pub fn price_history(&self) -> (bars: &Vec<TickPrice>)
        ensures
            bars@ == self@.price_history,
    {
        &self.price_history
    }

    /// The order-book snapshots seen so far, newest last.
    pub fn book_history(&self) -> (books: &Vec<OrderL2>)
        ensures
            books@ == self@.book_history,
    {
        &self.book_history
    }

    /// The last-trade prices seen so far, newest last.
    pub fn last_trade_prices(&self) -> (prices: &Vec<Decimal>)
        ensures
            prices@ == self@.last_trade_prices,
    {
        &self.last_trade_prices
    }
}

} // verus!
