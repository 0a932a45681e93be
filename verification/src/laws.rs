//! What holds of the engine in every state and for every event.

use vstd::prelude::*;
use crate::engine::{
    absorb, batch_commands, batch_state, decision, initial_state, signal, step_state,
    threshold_fires, EngineState,
};
use crate::market::{Command, MarketEvent, TickPrice};

verus! {

/// The state after the events were taken in one after another, none of the
/// answers being counted as submitted.
pub open spec fn absorb_all(s: EngineState, events: Seq<MarketEvent>) -> EngineState
    decreases events.len(),
{
    if events.len() == 0 {
        s
    } else {
        absorb(absorb_all(s, events.drop_last()), events.last())
    }
}

/// The state after the dispatch loop took a turn for each of the events.
pub open spec fn step_all(s: EngineState, events: Seq<MarketEvent>) -> EngineState
    decreases events.len(),
{
    if events.len() == 0 {
        s
    } else {
        step_state(step_all(s, events.drop_last()), events.last())
    }
}

/// Whether the event is a market-data tick that carries a price bar.
pub open spec fn carries_bar(event: MarketEvent) -> bool {
    match event {
        MarketEvent::MarketData { price_bar: Some(_), .. } => true,
        _ => false,
    }
}

/// The price bar of a market-data tick that carries one.
pub open spec fn bar_of(event: MarketEvent) -> TickPrice
    recommends
        carries_bar(event),
{
    match event {
        MarketEvent::MarketData { price_bar: Some(bar), .. } => bar,
        _ => arbitrary(),
    }
}

/// Whether the command places a new order.
pub open spec fn is_submit(command: Option<Command>) -> bool {
    match command {
        Some(Command::SubmitNewOrder { .. }) => true,
        _ => false,
    }
}

/// How many of the commands place a new order.
pub open spec fn submits(commands: Seq<Command>) -> nat
    decreases commands.len(),
{
    if commands.len() == 0 {
        0
    } else if is_submit(Some(commands.first())) {
        1 + submits(commands.drop_first())
    } else {
        submits(commands.drop_first())
    }
}

/// Taking events in changes neither the cap nor the counter nor the
/// instrument.
pub proof fn absorbing_keeps_counters(s: EngineState, events: Seq<MarketEvent>)
    ensures
        absorb_all(s, events).submitted == s.submitted,
        absorb_all(s, events).max_orders == s.max_orders,
        absorb_all(s, events).base == s.base,
        absorb_all(s, events).quoted == s.quoted,
    decreases events.len(),
{
    if events.len() > 0 {
        absorbing_keeps_counters(s, events.drop_last());
    }
}

/// Every command that the engine gives is well formed: it never asks to
/// cancel an empty list of orders.
pub proof fn commands_are_well_formed(s: EngineState, event: MarketEvent)
    ensures
        decision(s, event) matches Some(command) ==> command.is_well_formed(),
{
}

/// The histories are append-only and the counter never goes down: a turn of
/// the dispatch loop keeps what was there as a prefix of what is there
/// afterwards, and leaves the cap and the instrument alone.
pub proof fn histories_only_grow(s: EngineState, event: MarketEvent)
    ensures
        s.price_history.is_prefix_of(step_state(s, event).price_history),
        s.book_history.is_prefix_of(step_state(s, event).book_history),
        s.last_trade_prices.is_prefix_of(step_state(s, event).last_trade_prices),
        s.submitted <= step_state(s, event).submitted,
        step_state(s, event).max_orders == s.max_orders,
        step_state(s, event).base == s.base,
        step_state(s, event).quoted == s.quoted,
{
    let after = absorb(s, event);
    assert(s.price_history.is_prefix_of(after.price_history));
    assert(s.book_history.is_prefix_of(after.book_history));
    assert(s.last_trade_prices.is_prefix_of(after.last_trade_prices));
}

/// Once the counter has reached the cap, no event is answered with a new
/// order, whatever events were taken in before it.
pub proof fn cap_is_enforced(s: EngineState, earlier: Seq<MarketEvent>, event: MarketEvent)
    requires
        s.submitted >= s.max_orders,
    ensures
        !is_submit(decision(absorb_all(s, earlier), event)),
{
    absorbing_keeps_counters(s, earlier);
}

/// Turns of the dispatch loop never lower the counter and never change the
/// cap.
pub proof fn dispatch_never_lowers_counter(s: EngineState, events: Seq<MarketEvent>)
    ensures
        s.submitted <= step_all(s, events).submitted,
        step_all(s, events).max_orders == s.max_orders,
    decreases events.len(),
{
    if events.len() > 0 {
        dispatch_never_lowers_counter(s, events.drop_last());
    }
}

/// Once the counter has reached the cap, no later turn of the dispatch loop
/// is answered with a new order.
pub proof fn cap_is_enforced_in_dispatch(
    s: EngineState,
    earlier: Seq<MarketEvent>,
    event: MarketEvent,
)
    requires
        s.submitted >= s.max_orders,
    ensures
        !is_submit(decision(step_all(s, earlier), event)),
        step_all(s, earlier).submitted == s.submitted,
    decreases earlier.len(),
{
    dispatch_never_lowers_counter(s, earlier);
    if earlier.len() > 0 {
        cap_is_enforced_in_dispatch(s, earlier.drop_last(), earlier.last());
    }
}

/// A new order is only ever asked for while the counter is below the cap, so
/// counting it keeps the counter within the cap.
pub proof fn submit_stays_within_cap(s: EngineState, event: MarketEvent)
    requires
        is_submit(decision(s, event)),
    ensures
        s.submitted < s.max_orders,
        step_state(s, event).submitted == s.submitted + 1,
        step_state(s, event).submitted <= s.max_orders,
{
}

/// A dispatch loop that counts every new order it is given never takes the
/// counter past the cap, and never lowers it.
pub proof fn dispatch_never_exceeds_cap(s: EngineState, events: Seq<MarketEvent>)
    requires
        s.submitted <= s.max_orders,
    ensures
        s.submitted <= step_all(s, events).submitted <= s.max_orders,
        step_all(s, events).max_orders == s.max_orders,
    decreases events.len(),
{
    if events.len() > 0 {
        dispatch_never_exceeds_cap(s, events.drop_last());
    }
}

/// Going through the events of one message counts exactly the new orders
/// that it hands out, and never takes the counter past the cap: a batch hands
/// out no more new orders than the cap still allows.
pub proof fn batch_never_exceeds_cap(s: EngineState, events: Seq<MarketEvent>)
    requires
        s.submitted <= s.max_orders,
    ensures
        batch_state(s, events).submitted == s.submitted + submits(batch_commands(s, events)),
        batch_state(s, events).submitted <= s.max_orders,
        batch_state(s, events).max_orders == s.max_orders,
    decreases events.len(),
{
    if events.len() > 0 {
        match decision(s, events.first()) {
            None => {},
            Some(command) => {
                let next = step_state(s, events.first());
                let rest = batch_commands(next, events.drop_first());
                batch_never_exceeds_cap(next, events.drop_first());
                assert((seq![command] + rest).drop_first() =~= rest);
                assert((seq![command] + rest).first() == command);
            },
        }
    }
}

/// The open-orders snapshot that lists `order_ids`.
pub open spec fn snapshot_of(order_ids: Vec<String>) -> MarketEvent {
    MarketEvent::OpenOrdersSnapshot { order_ids }
}

/// The command that cancels `order_ids`.
pub open spec fn cancel_of(order_ids: Vec<String>) -> Command {
    Command::CancelOrders { order_ids }
}

/// The market-data tick with every part absent.
pub open spec fn empty_tick() -> MarketEvent {
    MarketEvent::MarketData { price_bar: None, book: None, last_trade_price: None }
}

/// An open-orders snapshot with at least one identifier is answered by
/// cancelling exactly that list, an empty one by nothing; either way the
/// state stays as it was, and the state has no say in the answer.
pub proof fn cancel_passes_through(s: EngineState, order_ids: Vec<String>)
    ensures
        order_ids@.len() > 0 ==> decision(s, snapshot_of(order_ids)) == Some(cancel_of(order_ids)),
        order_ids@.len() == 0 ==> decision(s, snapshot_of(order_ids)) is None,
        absorb(s, snapshot_of(order_ids)) == s,
        step_state(s, snapshot_of(order_ids)) == s,
{
}

/// After market-data ticks that each carry a price bar, the price history is
/// what it was, followed by those bars in arrival order.
pub proof fn history_accumulates(s: EngineState, events: Seq<MarketEvent>)
    requires
        forall|i: int| 0 <= i < events.len() ==> carries_bar(#[trigger] events[i]),
    ensures
        absorb_all(s, events).price_history == s.price_history + events.map_values(
            |e: MarketEvent| bar_of(e),
        ),
        absorb_all(s, events).price_history.len() == s.price_history.len() + events.len(),
    decreases events.len(),
{
    let bars = events.map_values(|e: MarketEvent| bar_of(e));
    if events.len() == 0 {
        assert(s.price_history + bars =~= s.price_history);
    } else {
        let front = events.drop_last();
        history_accumulates(s, front);
        let front_bars = front.map_values(|e: MarketEvent| bar_of(e));
        assert(carries_bar(events.last()));
        assert(bars =~= front_bars.push(bar_of(events.last())));
        assert((s.price_history + front_bars).push(bar_of(events.last())) =~= s.price_history
            + bars);
    }
}

/// A fresh engine that has seen N ticks with a price bar each holds exactly
/// those N bars.
pub proof fn fresh_history_has_every_bar(
    base: Seq<char>,
    quoted: Seq<char>,
    max_orders: nat,
    events: Seq<MarketEvent>,
)
    requires
        forall|i: int| 0 <= i < events.len() ==> carries_bar(#[trigger] events[i]),
    ensures
        absorb_all(initial_state(base, quoted, max_orders), events).price_history
            == events.map_values(|e: MarketEvent| bar_of(e)),
        absorb_all(initial_state(base, quoted, max_orders), events).price_history.len()
            == events.len(),
{
    let s = initial_state(base, quoted, max_orders);
    history_accumulates(s, events);
    assert(s.price_history + events.map_values(|e: MarketEvent| bar_of(e))
        =~= events.map_values(|e: MarketEvent| bar_of(e)));
}

/// A market-data tick with every part absent leaves the state as it was, and
/// is answered by what the rule says of the observations already held: by
/// nothing unless the rule fires on them below the cap.
pub proof fn empty_tick_changes_nothing(s: EngineState)
    ensures
        absorb(s, empty_tick()) == s,
        decision(s, empty_tick()) == signal(s),
        !threshold_fires(s) || s.submitted >= s.max_orders ==> decision(s, empty_tick()) is None,
{
}

/// A fresh engine answers a tick with every part absent by nothing.
pub proof fn empty_tick_on_fresh_engine(base: Seq<char>, quoted: Seq<char>, max_orders: nat)
    ensures
        decision(initial_state(base, quoted, max_orders), empty_tick()) is None,
        absorb(initial_state(base, quoted, max_orders), empty_tick()) == initial_state(
            base,
            quoted,
            max_orders,
        ),
{
}

} // verus!
