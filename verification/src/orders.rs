//! Order-entry payloads: the new-order builder and the cancel request.

use vstd::prelude::*;
use vstd::string::{StrSliceExecFns, StringExecFns};
use crate::decimal::Decimal;

verus! {

/// Length of a client order identifier, in characters.
pub const CLIENT_ORDER_ID_LEN: usize = 20;

/// Quantity of every order the client places: 0.010, in units.
pub const ORDER_QUANTITY_UNITS: u64 = 1_000_000;

/// The fields of a new-order payload, as plain values.
#[allow(non_snake_case)]
pub struct OrderFields {
    pub action: Seq<char>,
    pub channel: Seq<char>,
    pub ordType: Seq<char>,
    pub timeInForce: Seq<char>,
    pub orderQty: Decimal,
    pub side: Seq<char>,
    pub price: Decimal,
    pub symbol: Seq<char>,
    pub clOrdID: Seq<char>,
}

/// The fields a builder starts with: a limit buy, good till cancelled, on
/// the trading channel, with no quantity, price or identifier yet.
pub open spec fn default_fields() -> OrderFields {
    OrderFields {
        action: "NewOrderSingle"@,
        channel: "trading"@,
        ordType: "limit"@,
        timeInForce: "GTC"@,
        orderQty: Decimal { units: 0 },
        side: "buy"@,
        price: Decimal { units: 0 },
        symbol: "BTC-USD"@,
        clOrdID: ""@,
    }
}

/// The fields of a new limit order with the given side, price, quantity,
/// symbol and client order identifier.
pub open spec fn new_order_fields(
    side: Seq<char>,
    price: Decimal,
    quantity: Decimal,
    symbol: Seq<char>,
    id: Seq<char>,
) -> OrderFields {
    OrderFields {
        side,
        price,
        orderQty: quantity,
        symbol,
        clOrdID: id,
        ..default_fields()
    }
}

/// The quantity of every order the client places: 0.010.
pub open spec fn order_quantity() -> Decimal {
    Decimal { units: 1_000_000 }
}

/// The first twenty characters of `text`, or all of it where it is shorter.
pub open spec fn id_prefix(text: Seq<char>) -> Seq<char> {
    if text.len() >= 20 {
        text.subrange(0, 20)
    } else {
        text
    }
}

/// Whether the character is a digit or one of the letters a to f.
pub open spec fn is_lower_hex(c: char) -> bool {
    ('0' <= c && c <= '9') || ('a' <= c && c <= 'f')
}

/// Whether `c` may stand at position `i` of a hyphenated random identifier:
/// a hyphen at 8, 13, 18 and 23, the version digit 4 at 14, one of 8, 9, a, b
/// at 19, and a lower-case hexadecimal digit anywhere else.
pub open spec fn fits_uuid_position(i: int, c: char) -> bool {
    if i == 8 || i == 13 || i == 18 || i == 23 {
        c == '-'
    } else if i == 14 {
        c == '4'
    } else if i == 19 {
        c == '8' || c == '9' || c == 'a' || c == 'b'
    } else {
        is_lower_hex(c)
    }
}

/// Whether the text is the hyphenated form of a random (version 4)
/// identifier: 36 characters, each fitting its position.
pub open spec fn is_random_uuid_text(text: Seq<char>) -> bool {
    &&& text.len() == 36
    &&& forall|i: int| 0 <= i < 36 ==> fits_uuid_position(i, #[trigger] text[i])
}

/// Whether the text is a client order identifier as the library draws them:
/// the first twenty characters of a hyphenated random identifier.
pub open spec fn is_client_order_id(id: Seq<char>) -> bool {
    &&& id.len() == 20
    &&& forall|i: int| 0 <= i < 20 ==> fits_uuid_position(i, #[trigger] id[i])
}

/// A new-order payload, ready for the gateway to serialise.
#[allow(non_snake_case)]
#[derive(Debug, PartialEq, Eq)]
pub struct ExchangeOrder {
    pub action: String,
    pub channel: String,
    pub ordType: String,
    pub timeInForce: String,
    pub orderQty: Decimal,
    pub side: String,
    pub price: Decimal,
    pub symbol: String,
    pub clOrdID: String,
}

impl View for ExchangeOrder {
    type V = OrderFields;

    open spec fn view(&self) -> OrderFields {
        OrderFields {
            action: self.action@,
            channel: self.channel@,
            ordType: self.ordType@,
            timeInForce: self.timeInForce@,
            orderQty: self.orderQty,
            side: self.side@,
            price: self.price,
            symbol: self.symbol@,
            clOrdID: self.clOrdID@,
        }
    }
}

/// Collects the fields of a new-order payload, one setter at a time.
#[allow(non_snake_case)]
#[derive(Debug, PartialEq, Eq)]
pub struct ExchangeOrderBuilder {
    action: String,
    channel: String,
    ordType: String,
    timeInForce: String,
    orderQty: Decimal,
    side: String,
    price: Decimal,
    symbol: String,
    clOrdID: String,
}

impl View for ExchangeOrderBuilder {
    type V = OrderFields;

    closed spec fn view(&self) -> OrderFields {
        OrderFields {
            action: self.action@,
            channel: self.channel@,
            ordType: self.ordType@,
            timeInForce: self.timeInForce@,
            orderQty: self.orderQty,
            side: self.side@,
            price: self.price,
            symbol: self.symbol@,
            clOrdID: self.clOrdID@,
        }
    }
}

#[allow(non_snake_case)]
impl ExchangeOrderBuilder {
    /// A builder holding the default fields.
    pub fn new() -> (builder: ExchangeOrderBuilder)
        ensures
            builder@ == default_fields(),
    {
        ExchangeOrderBuilder {
            action: String::from_str("NewOrderSingle"),
            channel: String::from_str("trading"),
            ordType: String::from_str("limit"),
            timeInForce: String::from_str("GTC"),
            orderQty: Decimal { units: 0 },
            side: String::from_str("buy"),
            price: Decimal { units: 0 },
            symbol: String::from_str("BTC-USD"),
            clOrdID: String::from_str(""),
        }
    }

    /// Sets the order type and leaves the other fields alone.
    pub fn ordType(&mut self, ordType: &str) -> (builder: &mut ExchangeOrderBuilder)
        ensures
            builder@ == (OrderFields { ordType: ordType@, ..old(self)@ }),
            *final(self) == *final(builder),
    {
        self.ordType = String::from_str(ordType);
        self
    }

    /// Sets the quantity and leaves the other fields alone.
    pub fn orderQty(&mut self, orderQty: Decimal) -> (builder: &mut ExchangeOrderBuilder)
        ensures
            builder@ == (OrderFields { orderQty: orderQty, ..old(self)@ }),
            *final(self) == *final(builder),
    {
        self.orderQty = orderQty;
        self
    }

    /// Sets the side and leaves the other fields alone.
    pub fn side(&mut self, side: &str) -> (builder: &mut ExchangeOrderBuilder)
        ensures
            builder@ == (OrderFields { side: side@, ..old(self)@ }),
            *final(self) == *final(builder),
    {
        self.side = String::from_str(side);
        self
    }

    /// Sets the client order identifier and leaves the other fields alone.
    pub fn clOrdID(&mut self, clOrdID: &str) -> (builder: &mut ExchangeOrderBuilder)
        ensures
            builder@ == (OrderFields { clOrdID: clOrdID@, ..old(self)@ }),
            *final(self) == *final(builder),
    {
        self.clOrdID = String::from_str(clOrdID);
        self
    }

    /// Sets the price and leaves the other fields alone.
    pub fn price(&mut self, price: Decimal) -> (builder: &mut ExchangeOrderBuilder)
        ensures
            builder@ == (OrderFields { price: price, ..old(self)@ }),
            *final(self) == *final(builder),
    {
        self.price = price;
        self
    }

    /// Sets the instrument symbol and leaves the other fields alone.
    pub fn symbol(&mut self, symbol: &str) -> (builder: &mut ExchangeOrderBuilder)
        ensures
            builder@ == (OrderFields { symbol: symbol@, ..old(self)@ }),
            *final(self) == *final(builder),
    {
        self.symbol = String::from_str(symbol);
        self
    }

    /// The payload with the fields collected so far. The builder can be used
    /// again afterwards.
    pub fn finalize(&self) -> (order: ExchangeOrder)
        ensures
            order@ == self@,
    {
        ExchangeOrder {
            action: self.action.clone(),
            channel: self.channel.clone(),
            ordType: self.ordType.clone(),
            timeInForce: self.timeInForce.clone(),
            orderQty: self.orderQty,
            side: self.side.clone(),
            price: self.price,
            symbol: self.symbol.clone(),
            clOrdID: self.clOrdID.clone(),
        }
    }
}

/// Draws a random (version 4) identifier with `uuid::Uuid::new_v4` and writes
/// it out with the identifier's `Display`. Nothing is claimed of the random
/// digits. What is claimed is the written form: `Display` gives the
/// hyphenated lower-case form of 36 characters, and `new_v4` fixes the
/// version digit to 4 and the two top bits of the variant digit to binary 10.
/// The draw asks the operating system for random bytes.
#[verifier::external_body]
fn fresh_uuid_text() -> (text: String)
    ensures
        is_random_uuid_text(text@),
{
    uuid::Uuid::new_v4().to_string()
}

/// Cuts an identifier's text down to a client order identifier.
pub fn client_order_id(text: &str) -> (id: String)
    ensures
        id@ == id_prefix(text@),
{
    let n: usize = text.unicode_len();
    if n >= CLIENT_ORDER_ID_LEN {
        String::from_str(text.substring_char(0, CLIENT_ORDER_ID_LEN))
    } else {
        String::from_str(text)
    }
}

/// Builds the new-order payload whose client order identifier is cut from
/// `id_text`.
pub fn create_order_with_id(
    side: &str,
    price: Decimal,
    order_qty: Decimal,
    symbol: &str,
    id_text: &str,
) -> (order: ExchangeOrder)
    ensures
        order@ == new_order_fields(side@, price, order_qty, symbol@, id_prefix(id_text@)),
{
    let id: String = client_order_id(id_text);
    let mut builder: ExchangeOrderBuilder = ExchangeOrderBuilder::new();
    builder.side(side).price(price).orderQty(order_qty).symbol(symbol).clOrdID(id.as_str());
    builder.finalize()
}

/// Builds a new-order payload with a freshly drawn client order identifier of
/// twenty characters. Everything but the identifier is fixed by the
/// arguments.
pub fn create_order(
    side: &str,
    price: Decimal,
    order_qty: Decimal,
    symbol: &str,
) -> (order: ExchangeOrder)
    ensures
        order@ == new_order_fields(side@, price, order_qty, symbol@, order@.clOrdID),
        is_client_order_id(order@.clOrdID),
{
    let text: String = fresh_uuid_text();
    let order: ExchangeOrder = create_order_with_id(
        side,
        price,
        order_qty,
        symbol,
        text.as_str(),
    );
    assert(order@.clOrdID == text@.subrange(0, 20));
    assert forall|i: int| 0 <= i < 20 implies fits_uuid_position(
        i,
        #[trigger] order@.clOrdID[i],
    ) by {
        assert(order@.clOrdID[i] == text@[i]);
    }
    order
}

/// The payload that answers a submit-new-order command: a buy of the fixed
/// quantity of BTC-GBP at the reference price.
pub fn create_buy_order(reference_price: Decimal) -> (order: ExchangeOrder)
    ensures
        order@ == new_order_fields(
            "buy"@,
            reference_price,
            order_quantity(),
            "BTC-GBP"@,
            order@.clOrdID,
        ),
        is_client_order_id(order@.clOrdID),
{
    create_order("buy", reference_price, Decimal { units: ORDER_QUANTITY_UNITS }, "BTC-GBP")
}

/// The fields of a cancel request, as plain values.
#[allow(non_snake_case)]
pub struct CancelFields {
    pub action: Seq<char>,
    pub channel: Seq<char>,
    pub orderID: Seq<char>,
}

/// The cancel request for the order with the given identifier.
pub open spec fn cancel_fields(order_id: Seq<char>) -> CancelFields {
    CancelFields { action: "CancelOrderRequest"@, channel: "trading"@, orderID: order_id }
}

/// A request to cancel one open order.
#[allow(non_snake_case)]
#[derive(Debug, PartialEq, Eq)]
pub struct CancelRequest {
    pub action: String,
    pub channel: String,
    pub orderID: String,
}

impl View for CancelRequest {
    type V = CancelFields;

    open spec fn view(&self) -> CancelFields {
        CancelFields { action: self.action@, channel: self.channel@, orderID: self.orderID@ }
    }
}

/// Builds the cancel request for one order.
pub fn build_cancel(order_id: &str) -> (request: CancelRequest)
    ensures
        request@ == cancel_fields(order_id@),
{
    CancelRequest {
        action: String::from_str("CancelOrderRequest"),
        channel: String::from_str("trading"),
        orderID: String::from_str(order_id),
    }
}

/// Builds one cancel request for each identifier, in the order given.
pub fn build_cancels(order_ids: &Vec<String>) -> (requests: Vec<CancelRequest>)
    ensures
        requests@.len() == order_ids@.len(),
        forall|i: int|
            0 <= i < order_ids@.len() ==> (#[trigger] requests@[i])@ == cancel_fields(
                order_ids@[i]@,
            ),
{
    let mut requests: Vec<CancelRequest> = Vec::new();
    let mut i: usize = 0;
    while i < order_ids.len()
        invariant
            i <= order_ids@.len(),
            requests@.len() == i,
            forall|k: int|
                0 <= k < i ==> (#[trigger] requests@[k])@ == cancel_fields(order_ids@[k]@),
        decreases order_ids@.len() - i,
    {
        requests.push(build_cancel(order_ids[i].as_str()));
        i = i + 1;
    }
    requests
}

} // verus!
