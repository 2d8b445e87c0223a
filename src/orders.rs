use vstd::prelude::*;

verus! {

/// Two texts hold the same characters.
fn same_text(a: &str, b: &str) -> (r: bool)
    ensures
        r == (a@ == b@),
{
    let n = a.unicode_len();
    if n != b.unicode_len() {
        return false;
    }
    let mut i: usize = 0;
    while i < n
        invariant
            n == a@.len(),
            n == b@.len(),
            i <= n,
            forall|j: int| 0 <= j < i ==> a@[j] == b@[j],
        decreases n - i,
    {
        if a.get_char(i) != b.get_char(i) {
            return false;
        }
        i = i + 1;
    }
    assert(a@ =~= b@);
    true
}

/// The kind of an order.
#[allow(non_camel_case_types)]
#[derive(Clone, Copy, Debug, PartialEq, Eq, Structural)]
pub enum OrderType {
    EQ,
    OPTN,
    SPREADS,
    BUY_WRITES,
    BUTTERFLY,
    IRON_BUTTERFLY,
    CONDOR,
    IRON_CONDOR,
    MF,
    MMF,
}

/// The name under which the API writes a `OrderType`.
pub open spec fn order_type_name(t: OrderType) -> Seq<char> {
    match t {
        OrderType::EQ => "EQ"@,
        OrderType::OPTN => "OPTN"@,
        OrderType::SPREADS => "SPREADS"@,
        OrderType::BUY_WRITES => "BUY_WRITES"@,
        OrderType::BUTTERFLY => "BUTTERFLY"@,
        OrderType::IRON_BUTTERFLY => "IRON_BUTTERFLY"@,
        OrderType::CONDOR => "CONDOR"@,
        OrderType::IRON_CONDOR => "IRON_CONDOR"@,
        OrderType::MF => "MF"@,
        OrderType::MMF => "MMF"@,
    }
}

/// The `OrderType` that a name stands for, if any.
pub open spec fn order_type_named(s: Seq<char>) -> Option<OrderType> {
    if s == "EQ"@ {
        Some(OrderType::EQ)
    } else if s == "OPTN"@ {
        Some(OrderType::OPTN)
    } else if s == "SPREADS"@ {
        Some(OrderType::SPREADS)
    } else if s == "BUY_WRITES"@ {
        Some(OrderType::BUY_WRITES)
    } else if s == "BUTTERFLY"@ {
        Some(OrderType::BUTTERFLY)
    } else if s == "IRON_BUTTERFLY"@ {
        Some(OrderType::IRON_BUTTERFLY)
    } else if s == "CONDOR"@ {
        Some(OrderType::CONDOR)
    } else if s == "IRON_CONDOR"@ {
        Some(OrderType::IRON_CONDOR)
    } else if s == "MF"@ {
        Some(OrderType::MF)
    } else if s == "MMF"@ {
        Some(OrderType::MMF)
    } else {
        None
    }
}

impl OrderType {
    /// The API's name for the value.
    pub fn as_str(&self) -> (r: &'static str)
        ensures
            r@ == order_type_name(*self),
    {
        match self {
            OrderType::EQ => "EQ",
            OrderType::OPTN => "OPTN",
            OrderType::SPREADS => "SPREADS",
            OrderType::BUY_WRITES => "BUY_WRITES",
            OrderType::BUTTERFLY => "BUTTERFLY",
            OrderType::IRON_BUTTERFLY => "IRON_BUTTERFLY",
            OrderType::CONDOR => "CONDOR",
            OrderType::IRON_CONDOR => "IRON_CONDOR",
            OrderType::MF => "MF",
            OrderType::MMF => "MMF",
        }
    }

    /// The value with the given API name.
    pub fn parse(s: &str) -> (r: Option<OrderType>)
        ensures
            r == order_type_named(s@),
    {
        if same_text(s, "EQ") {
            Some(OrderType::EQ)
        } else if same_text(s, "OPTN") {
            Some(OrderType::OPTN)
        } else if same_text(s, "SPREADS") {
            Some(OrderType::SPREADS)
        } else if same_text(s, "BUY_WRITES") {
            Some(OrderType::BUY_WRITES)
        } else if same_text(s, "BUTTERFLY") {
            Some(OrderType::BUTTERFLY)
        } else if same_text(s, "IRON_BUTTERFLY") {
            Some(OrderType::IRON_BUTTERFLY)
        } else if same_text(s, "CONDOR") {
            Some(OrderType::CONDOR)
        } else if same_text(s, "IRON_CONDOR") {
            Some(OrderType::IRON_CONDOR)
        } else if same_text(s, "MF") {
            Some(OrderType::MF)
        } else if same_text(s, "MMF") {
            Some(OrderType::MMF)
        } else {
            None
        }
    }
}

/// Each `OrderType` reads back from its own name.
pub proof fn lemma_order_type_round_trip(t: OrderType)
    ensures
        order_type_named(order_type_name(t)) == Some(t),
{
    reveal_strlit("EQ");
    reveal_strlit("OPTN");
    reveal_strlit("SPREADS");
    reveal_strlit("BUY_WRITES");
    reveal_strlit("BUTTERFLY");
    reveal_strlit("IRON_BUTTERFLY");
    reveal_strlit("CONDOR");
    reveal_strlit("IRON_CONDOR");
    reveal_strlit("MF");
    reveal_strlit("MMF");
    match t {
        OrderType::EQ => {},
        OrderType::OPTN => {
            assert("OPTN"@.len() != "EQ"@.len());
        },
        OrderType::SPREADS => {
            assert("SPREADS"@.len() != "EQ"@.len());
            assert("SPREADS"@.len() != "OPTN"@.len());
        },
        OrderType::BUY_WRITES => {
            assert("BUY_WRITES"@.len() != "EQ"@.len());
            assert("BUY_WRITES"@.len() != "OPTN"@.len());
            assert("BUY_WRITES"@.len() != "SPREADS"@.len());
        },
        OrderType::BUTTERFLY => {
            assert("BUTTERFLY"@.len() != "EQ"@.len());
            assert("BUTTERFLY"@.len() != "OPTN"@.len());
            assert("BUTTERFLY"@.len() != "SPREADS"@.len());
            assert("BUTTERFLY"@.len() != "BUY_WRITES"@.len());
        },
        OrderType::IRON_BUTTERFLY => {
            assert("IRON_BUTTERFLY"@.len() != "EQ"@.len());
            assert("IRON_BUTTERFLY"@.len() != "OPTN"@.len());
            assert("IRON_BUTTERFLY"@.len() != "SPREADS"@.len());
            assert("IRON_BUTTERFLY"@.len() != "BUY_WRITES"@.len());
            assert("IRON_BUTTERFLY"@.len() != "BUTTERFLY"@.len());
        },
        OrderType::CONDOR => {
            assert("CONDOR"@.len() != "EQ"@.len());
            assert("CONDOR"@.len() != "OPTN"@.len());
            assert("CONDOR"@.len() != "SPREADS"@.len());
            assert("CONDOR"@.len() != "BUY_WRITES"@.len());
            assert("CONDOR"@.len() != "BUTTERFLY"@.len());
            assert("CONDOR"@.len() != "IRON_BUTTERFLY"@.len());
        },
        OrderType::IRON_CONDOR => {
            assert("IRON_CONDOR"@.len() != "EQ"@.len());
            assert("IRON_CONDOR"@.len() != "OPTN"@.len());
            assert("IRON_CONDOR"@.len() != "SPREADS"@.len());
            assert("IRON_CONDOR"@.len() != "BUY_WRITES"@.len());
            assert("IRON_CONDOR"@.len() != "BUTTERFLY"@.len());
            assert("IRON_CONDOR"@.len() != "IRON_BUTTERFLY"@.len());
            assert("IRON_CONDOR"@.len() != "CONDOR"@.len());
        },
        OrderType::MF => {
            assert("MF"@[0] != "EQ"@[0]);
            assert("MF"@.len() != "OPTN"@.len());
            assert("MF"@.len() != "SPREADS"@.len());
            assert("MF"@.len() != "BUY_WRITES"@.len());
            assert("MF"@.len() != "BUTTERFLY"@.len());
            assert("MF"@.len() != "IRON_BUTTERFLY"@.len());
            assert("MF"@.len() != "CONDOR"@.len());
            assert("MF"@.len() != "IRON_CONDOR"@.len());
        },
        OrderType::MMF => {
            assert("MMF"@.len() != "EQ"@.len());
            assert("MMF"@.len() != "OPTN"@.len());
            assert("MMF"@.len() != "SPREADS"@.len());
            assert("MMF"@.len() != "BUY_WRITES"@.len());
            assert("MMF"@.len() != "BUTTERFLY"@.len());
            assert("MMF"@.len() != "IRON_BUTTERFLY"@.len());
            assert("MMF"@.len() != "CONDOR"@.len());
            assert("MMF"@.len() != "IRON_CONDOR"@.len());
            assert("MMF"@.len() != "MF"@.len());
        },
    }
}

/// What an order does with the instrument.
#[allow(non_camel_case_types)]
#[derive(Clone, Copy, Debug, PartialEq, Eq, Structural)]
pub enum OrderAction {
    BUY,
    SELL,
    BUY_TO_COVER,
    SELL_SHORT,
    BUY_OPEN,
    BUY_CLOSE,
    SELL_OPEN,
    SELL_CLOSE,
    EXCHANGE,
}

/// The name under which the API writes a `OrderAction`.
pub open spec fn order_action_name(t: OrderAction) -> Seq<char> {
    match t {
        OrderAction::BUY => "BUY"@,
        OrderAction::SELL => "SELL"@,
        OrderAction::BUY_TO_COVER => "BUY_TO_COVER"@,
        OrderAction::SELL_SHORT => "SELL_SHORT"@,
        OrderAction::BUY_OPEN => "BUY_OPEN"@,
        OrderAction::BUY_CLOSE => "BUY_CLOSE"@,
        OrderAction::SELL_OPEN => "SELL_OPEN"@,
        OrderAction::SELL_CLOSE => "SELL_CLOSE"@,
        OrderAction::EXCHANGE => "EXCHANGE"@,
    }
}

/// The `OrderAction` that a name stands for, if any.
pub open spec fn order_action_named(s: Seq<char>) -> Option<OrderAction> {
    if s == "BUY"@ {
        Some(OrderAction::BUY)
    } else if s == "SELL"@ {
        Some(OrderAction::SELL)
    } else if s == "BUY_TO_COVER"@ {
        Some(OrderAction::BUY_TO_COVER)
    } else if s == "SELL_SHORT"@ {
        Some(OrderAction::SELL_SHORT)
    } else if s == "BUY_OPEN"@ {
        Some(OrderAction::BUY_OPEN)
    } else if s == "BUY_CLOSE"@ {
        Some(OrderAction::BUY_CLOSE)
    } else if s == "SELL_OPEN"@ {
        Some(OrderAction::SELL_OPEN)
    } else if s == "SELL_CLOSE"@ {
        Some(OrderAction::SELL_CLOSE)
    } else if s == "EXCHANGE"@ {
        Some(OrderAction::EXCHANGE)
    } else {
        None
    }
}

impl OrderAction {
    /// The API's name for the value.
    pub fn as_str(&self) -> (r: &'static str)
        ensures
            r@ == order_action_name(*self),
    {
        match self {
            OrderAction::BUY => "BUY",
            OrderAction::SELL => "SELL",
            OrderAction::BUY_TO_COVER => "BUY_TO_COVER",
            OrderAction::SELL_SHORT => "SELL_SHORT",
            OrderAction::BUY_OPEN => "BUY_OPEN",
            OrderAction::BUY_CLOSE => "BUY_CLOSE",
            OrderAction::SELL_OPEN => "SELL_OPEN",
            OrderAction::SELL_CLOSE => "SELL_CLOSE",
            OrderAction::EXCHANGE => "EXCHANGE",
        }
    }

    /// The value with the given API name.
    pub fn parse(s: &str) -> (r: Option<OrderAction>)
        ensures
            r == order_action_named(s@),
    {
        if same_text(s, "BUY") {
            Some(OrderAction::BUY)
        } else if same_text(s, "SELL") {
            Some(OrderAction::SELL)
        } else if same_text(s, "BUY_TO_COVER") {
            Some(OrderAction::BUY_TO_COVER)
        } else if same_text(s, "SELL_SHORT") {
            Some(OrderAction::SELL_SHORT)
        } else if same_text(s, "BUY_OPEN") {
            Some(OrderAction::BUY_OPEN)
        } else if same_text(s, "BUY_CLOSE") {
            Some(OrderAction::BUY_CLOSE)
        } else if same_text(s, "SELL_OPEN") {
            Some(OrderAction::SELL_OPEN)
        } else if same_text(s, "SELL_CLOSE") {
            Some(OrderAction::SELL_CLOSE)
        } else if same_text(s, "EXCHANGE") {
            Some(OrderAction::EXCHANGE)
        } else {
            None
        }
    }
}

/// Each `OrderAction` reads back from its own name.
pub proof fn lemma_order_action_round_trip(t: OrderAction)
    ensures
        order_action_named(order_action_name(t)) == Some(t),
{
    reveal_strlit("BUY");
    reveal_strlit("SELL");
    reveal_strlit("BUY_TO_COVER");
    reveal_strlit("SELL_SHORT");
    reveal_strlit("BUY_OPEN");
    reveal_strlit("BUY_CLOSE");
    reveal_strlit("SELL_OPEN");
    reveal_strlit("SELL_CLOSE");
    reveal_strlit("EXCHANGE");
    match t {
        OrderAction::BUY => {},
        OrderAction::SELL => {
            assert("SELL"@.len() != "BUY"@.len());
        },
        OrderAction::BUY_TO_COVER => {
            assert("BUY_TO_COVER"@.len() != "BUY"@.len());
            assert("BUY_TO_COVER"@.len() != "SELL"@.len());
        },
        OrderAction::SELL_SHORT => {
            assert("SELL_SHORT"@.len() != "BUY"@.len());
            assert("SELL_SHORT"@.len() != "SELL"@.len());
            assert("SELL_SHORT"@.len() != "BUY_TO_COVER"@.len());
        },
        OrderAction::BUY_OPEN => {
            assert("BUY_OPEN"@.len() != "BUY"@.len());
            assert("BUY_OPEN"@.len() != "SELL"@.len());
            assert("BUY_OPEN"@.len() != "BUY_TO_COVER"@.len());
            assert("BUY_OPEN"@.len() != "SELL_SHORT"@.len());
        },
        OrderAction::BUY_CLOSE => {
            assert("BUY_CLOSE"@.len() != "BUY"@.len());
            assert("BUY_CLOSE"@.len() != "SELL"@.len());
            assert("BUY_CLOSE"@.len() != "BUY_TO_COVER"@.len());
            assert("BUY_CLOSE"@.len() != "SELL_SHORT"@.len());
            assert("BUY_CLOSE"@.len() != "BUY_OPEN"@.len());
        },
        OrderAction::SELL_OPEN => {
            assert("SELL_OPEN"@.len() != "BUY"@.len());
            assert("SELL_OPEN"@.len() != "SELL"@.len());
            assert("SELL_OPEN"@.len() != "BUY_TO_COVER"@.len());
            assert("SELL_OPEN"@.len() != "SELL_SHORT"@.len());
            assert("SELL_OPEN"@.len() != "BUY_OPEN"@.len());
            assert("SELL_OPEN"@[0] != "BUY_CLOSE"@[0]);
        },
        OrderAction::SELL_CLOSE => {
            assert("SELL_CLOSE"@.len() != "BUY"@.len());
            assert("SELL_CLOSE"@.len() != "SELL"@.len());
            assert("SELL_CLOSE"@.len() != "BUY_TO_COVER"@.len());
            assert("SELL_CLOSE"@[5] != "SELL_SHORT"@[5]);
            assert("SELL_CLOSE"@.len() != "BUY_OPEN"@.len());
            assert("SELL_CLOSE"@.len() != "BUY_CLOSE"@.len());
            assert("SELL_CLOSE"@.len() != "SELL_OPEN"@.len());
        },
        OrderAction::EXCHANGE => {
            assert("EXCHANGE"@.len() != "BUY"@.len());
            assert("EXCHANGE"@.len() != "SELL"@.len());
            assert("EXCHANGE"@.len() != "BUY_TO_COVER"@.len());
            assert("EXCHANGE"@.len() != "SELL_SHORT"@.len());
            assert("EXCHANGE"@[0] != "BUY_OPEN"@[0]);
            assert("EXCHANGE"@.len() != "BUY_CLOSE"@.len());
            assert("EXCHANGE"@.len() != "SELL_OPEN"@.len());
            assert("EXCHANGE"@.len() != "SELL_CLOSE"@.len());
        },
    }
}

/// Where an order stands.
#[allow(non_camel_case_types)]
#[derive(Clone, Copy, Debug, PartialEq, Eq, Structural)]
pub enum StatusType {
    OPEN,
    EXECUTED,
    CANCELLED,
    INDIVIDUAL_FILLS,
    CANCEL_REQUESTED,
    EXPIRED,
    REJECTED,
    PARTIAL,
    DO_NOT_EXERCISE,
    DONE_TRADE_EXECUTED,
}

/// The name under which the API writes a `StatusType`.
pub open spec fn status_type_name(t: StatusType) -> Seq<char> {
    match t {
        StatusType::OPEN => "OPEN"@,
        StatusType::EXECUTED => "EXECUTED"@,
        StatusType::CANCELLED => "CANCELLED"@,
        StatusType::INDIVIDUAL_FILLS => "INDIVIDUAL_FILLS"@,
        StatusType::CANCEL_REQUESTED => "CANCEL_REQUESTED"@,
        StatusType::EXPIRED => "EXPIRED"@,
        StatusType::REJECTED => "REJECTED"@,
        StatusType::PARTIAL => "PARTIAL"@,
        StatusType::DO_NOT_EXERCISE => "DO_NOT_EXERCISE"@,
        StatusType::DONE_TRADE_EXECUTED => "DONE_TRADE_EXECUTED"@,
    }
}

impl StatusType {
    /// The API's name for the value.
    pub fn as_str(&self) -> (r: &'static str)
        ensures
            r@ == status_type_name(*self),
    {
        match self {
            StatusType::OPEN => "OPEN",
            StatusType::EXECUTED => "EXECUTED",
            StatusType::CANCELLED => "CANCELLED",
            StatusType::INDIVIDUAL_FILLS => "INDIVIDUAL_FILLS",
            StatusType::CANCEL_REQUESTED => "CANCEL_REQUESTED",
            StatusType::EXPIRED => "EXPIRED",
            StatusType::REJECTED => "REJECTED",
            StatusType::PARTIAL => "PARTIAL",
            StatusType::DO_NOT_EXERCISE => "DO_NOT_EXERCISE",
            StatusType::DONE_TRADE_EXECUTED => "DONE_TRADE_EXECUTED",
        }
    }
}

/// The instrument of an order line.
#[derive(Debug, PartialEq)]
pub struct Product {
    pub symbol: String,
    pub security_type: String,
}

/// One line of an order: what to do with how much of which product.
#[derive(Debug)]
pub struct Instrument {
    pub symbol_description: Option<String>,
    pub order_action: String,
    pub quantity: String,
    pub quantity_type: String,
    pub cancel_quantity: Option<String>,
    pub reserve_order: Option<bool>,
    pub product: Product,
}

/// An order as the order endpoints describe it.
#[derive(Debug)]
pub struct Order {
    pub all_or_none: bool,
    pub account_id: String,
    pub placed_time: String,
    pub executed_time: String,
    pub status: String,
    pub order_number: String,
    pub order_term: String,
    pub market_session: String,
    pub preview_id: String,
    pub price_type: String,
    pub price_value: String,
    pub limit_price: String,
    pub stop_price: String,
    pub net_price: String,
    pub net_bid: String,
    pub net_ask: String,
    pub estimated_total_amount: String,
    pub estimated_commission: String,
    pub instrument: Vec<Instrument>,
}

impl Default for Order {
    /// An all-or-none order with no lines and every text empty.
    fn default() -> (r: Order)
        ensures
            r.all_or_none,
            r.instrument@.len() == 0,
            r.account_id@ == Seq::<char>::empty(),
            r.placed_time@ == Seq::<char>::empty(),
            r.executed_time@ == Seq::<char>::empty(),
            r.status@ == Seq::<char>::empty(),
            r.order_number@ == Seq::<char>::empty(),
            r.order_term@ == Seq::<char>::empty(),
            r.market_session@ == Seq::<char>::empty(),
            r.preview_id@ == Seq::<char>::empty(),
            r.price_type@ == Seq::<char>::empty(),
            r.price_value@ == Seq::<char>::empty(),
            r.limit_price@ == Seq::<char>::empty(),
            r.stop_price@ == Seq::<char>::empty(),
            r.net_price@ == Seq::<char>::empty(),
            r.net_bid@ == Seq::<char>::empty(),
            r.net_ask@ == Seq::<char>::empty(),
            r.estimated_total_amount@ == Seq::<char>::empty(),
            r.estimated_commission@ == Seq::<char>::empty(),
    {
        Order {
            all_or_none: true,
            account_id: String::new(),
            placed_time: String::new(),
            executed_time: String::new(),
            status: String::new(),
            order_number: String::new(),
            order_term: String::new(),
            market_session: String::new(),
            preview_id: String::new(),
            price_type: String::new(),
            price_value: String::new(),
            limit_price: String::new(),
            stop_price: String::new(),
            net_price: String::new(),
            net_bid: String::new(),
            net_ask: String::new(),
            estimated_total_amount: String::new(),
            estimated_commission: String::new(),
            instrument: Vec::new(),
        }
    }
}

/// The id that a preview hands out for placing the order.
#[derive(Debug, PartialEq)]
pub struct PreviewId {
    pub preview_id: String,
}

#[derive(Debug)]
pub struct PreviewOrderRequest {
    pub order_type: String,
    pub client_order_id: String,
    pub order: Vec<Order>,
}

#[derive(Debug)]
pub struct PreviewOrderResponse {
    pub order_type: String,
    pub account_id: String,
    pub client_order_id: String,
    pub preview_time: String,
    pub order: Vec<Order>,
    pub preview_ids: Vec<PreviewId>,
    pub total_commission: String,
    pub commission_message: String,
    pub total_order_value: String,
}

#[derive(Debug)]
pub struct PlaceOrderRequest {
    pub order_type: OrderType,
    pub client_order_id: String,
    pub order: Vec<Order>,
    pub preview_ids: Vec<PreviewId>,
}

#[derive(Debug)]
pub struct PlaceOrderResponse {
    pub order_type: OrderType,
    pub account_id: String,
    pub client_order_id: String,
    pub preview_time: String,
    pub message_list: Vec<String>,
    pub order: Vec<Order>,
    pub order_id: String,
    pub preview_ids: Vec<PreviewId>,
    pub total_commission: String,
    pub commission_message: String,
    pub total_order_value: String,
}

} // verus!
