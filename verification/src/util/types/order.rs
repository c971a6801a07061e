use crate::util::error::ExchangeError;
use crate::util::symbol::Symbol;
use vstd::prelude::*;

verus! {
/// Side of an order, with the numeric codes of the wire format.
#[derive(Debug, Clone, Copy, PartialEq, Eq, Structural)]
pub enum OrderSide {
    Unknown,
    Buy,
    CloseSell,
    Sell,
    CloseBuy,
}

impl OrderSide {
    /// The numeric code.
    pub open spec fn code(self) -> i8 {
        match self {
            OrderSide::Unknown => 0,
            OrderSide::Buy => 1,
            OrderSide::CloseSell => 2,
            OrderSide::Sell => 3,
            OrderSide::CloseBuy => 4,
        }
    }

    /// The value with code `n`; a code that names no value gives `Unknown`.
    pub open spec fn of_code(n: i8) -> OrderSide {
        if n == 1 {
            OrderSide::Buy
        } else if n == 2 {
            OrderSide::CloseSell
        } else if n == 3 {
            OrderSide::Sell
        } else if n == 4 {
            OrderSide::CloseBuy
        } else {
            OrderSide::Unknown
        }
    }
}

impl From<i8> for OrderSide {
    fn from(n: i8) -> (r: Self) {
        if n == 1 {
            OrderSide::Buy
        } else if n == 2 {
            OrderSide::CloseSell
        } else if n == 3 {
            OrderSide::Sell
        } else if n == 4 {
            OrderSide::CloseBuy
        } else {
            OrderSide::Unknown
        }
    }
}

impl vstd::std_specs::convert::FromSpecImpl<i8> for OrderSide {
    open spec fn obeys_from_spec() -> bool {
        true
    }

    open spec fn from_spec(n: i8) -> OrderSide {
        OrderSide::of_code(n)
    }
}

impl From<OrderSide> for i8 {
    fn from(v: OrderSide) -> (r: i8) {
        match v {
            OrderSide::Unknown => 0,
            OrderSide::Buy => 1,
            OrderSide::CloseSell => 2,
            OrderSide::Sell => 3,
            OrderSide::CloseBuy => 4,
        }
    }
}

impl vstd::std_specs::convert::FromSpecImpl<OrderSide> for i8 {
    open spec fn obeys_from_spec() -> bool {
        true
    }

    open spec fn from_spec(v: OrderSide) -> i8 {
        v.code()
    }
}

/// Kind of an order, with the numeric codes of the wire format.
#[derive(Debug, Clone, Copy, PartialEq, Eq, Structural)]
pub enum OrderType {
    Unknown,
    Limit,
    Market,
    LimitMaker,
    ImmediateOrCancel,
    FillOrKill,
}

impl OrderType {
    /// The numeric code.
    pub open spec fn code(self) -> i8 {
        match self {
            OrderType::Unknown => 0,
            OrderType::Limit => 1,
            OrderType::Market => 5,
            OrderType::LimitMaker => 2,
            OrderType::ImmediateOrCancel => 3,
            OrderType::FillOrKill => 4,
        }
    }

    /// The value with code `n`; a code that names no value gives `Unknown`.
    pub open spec fn of_code(n: i8) -> OrderType {
        if n == 1 {
            OrderType::Limit
        } else if n == 5 {
            OrderType::Market
        } else if n == 2 {
            OrderType::LimitMaker
        } else if n == 3 {
            OrderType::ImmediateOrCancel
        } else if n == 4 {
            OrderType::FillOrKill
        } else {
            OrderType::Unknown
        }
    }
}

impl From<i8> for OrderType {
    fn from(n: i8) -> (r: Self) {
        if n == 1 {
            OrderType::Limit
        } else if n == 5 {
            OrderType::Market
        } else if n == 2 {
            OrderType::LimitMaker
        } else if n == 3 {
            OrderType::ImmediateOrCancel
        } else if n == 4 {
            OrderType::FillOrKill
        } else {
            OrderType::Unknown
        }
    }
}

impl vstd::std_specs::convert::FromSpecImpl<i8> for OrderType {
    open spec fn obeys_from_spec() -> bool {
        true
    }

    open spec fn from_spec(n: i8) -> OrderType {
        OrderType::of_code(n)
    }
}

impl From<OrderType> for i8 {
    fn from(v: OrderType) -> (r: i8) {
        match v {
            OrderType::Unknown => 0,
            OrderType::Limit => 1,
            OrderType::Market => 5,
            OrderType::LimitMaker => 2,
            OrderType::ImmediateOrCancel => 3,
            OrderType::FillOrKill => 4,
        }
    }
}

impl vstd::std_specs::convert::FromSpecImpl<OrderType> for i8 {
    open spec fn obeys_from_spec() -> bool {
        true
    }

    open spec fn from_spec(v: OrderType) -> i8 {
        v.code()
    }
}

/// State of an order, with the numeric codes of the wire format.
#[derive(Debug, Clone, Copy, PartialEq, Eq, Structural)]
pub enum OrderStatus {
    Unknown,
    New,
    Filled,
    PartiallyFilled,
    Canceled,
    PartiallyCanceled,
    Expired,
}

impl OrderStatus {
    /// The numeric code.
    pub open spec fn code(self) -> i8 {
        match self {
            OrderStatus::Unknown => 0,
            OrderStatus::New => 1,
            OrderStatus::Filled => 3,
            OrderStatus::PartiallyFilled => 2,
            OrderStatus::Canceled => 4,
            OrderStatus::PartiallyCanceled => 5,
            OrderStatus::Expired => 6,
        }
    }

    /// The value with code `n`; a code that names no value gives `Unknown`.
    pub open spec fn of_code(n: i8) -> OrderStatus {
        if n == 1 {
            OrderStatus::New
        } else if n == 3 {
            OrderStatus::Filled
        } else if n == 2 {
            OrderStatus::PartiallyFilled
        } else if n == 4 {
            OrderStatus::Canceled
        } else if n == 5 {
            OrderStatus::PartiallyCanceled
        } else if n == 6 {
            OrderStatus::Expired
        } else {
            OrderStatus::Unknown
        }
    }
}

impl From<i8> for OrderStatus {
    fn from(n: i8) -> (r: Self) {
        if n == 1 {
            OrderStatus::New
        } else if n == 3 {
            OrderStatus::Filled
        } else if n == 2 {
            OrderStatus::PartiallyFilled
        } else if n == 4 {
            OrderStatus::Canceled
        } else if n == 5 {
            OrderStatus::PartiallyCanceled
        } else if n == 6 {
            OrderStatus::Expired
        } else {
            OrderStatus::Unknown
        }
    }
}

impl vstd::std_specs::convert::FromSpecImpl<i8> for OrderStatus {
    open spec fn obeys_from_spec() -> bool {
        true
    }

    open spec fn from_spec(n: i8) -> OrderStatus {
        OrderStatus::of_code(n)
    }
}

impl From<OrderStatus> for i8 {
    fn from(v: OrderStatus) -> (r: i8) {
        match v {
            OrderStatus::Unknown => 0,
            OrderStatus::New => 1,
            OrderStatus::Filled => 3,
            OrderStatus::PartiallyFilled => 2,
            OrderStatus::Canceled => 4,
            OrderStatus::PartiallyCanceled => 5,
            OrderStatus::Expired => 6,
        }
    }
}

impl vstd::std_specs::convert::FromSpecImpl<OrderStatus> for i8 {
    open spec fn obeys_from_spec() -> bool {
        true
    }

    open spec fn from_spec(v: OrderStatus) -> i8 {
        v.code()
    }
}

/// Margin mode of a futures position, with the numeric codes of the wire format.
#[derive(Debug, Clone, Copy, PartialEq, Eq, Structural)]
pub enum FuturesOpenType {
    Unknown,
    Isolated,
    Cross,
}

impl FuturesOpenType {
    /// The numeric code.
    pub open spec fn code(self) -> i8 {
        match self {
            FuturesOpenType::Unknown => 0,
            FuturesOpenType::Isolated => 1,
            FuturesOpenType::Cross => 2,
        }
    }

    /// The value with code `n`; a code that names no value gives `Unknown`.
    pub open spec fn of_code(n: i8) -> FuturesOpenType {
        if n == 1 {
            FuturesOpenType::Isolated
        } else if n == 2 {
            FuturesOpenType::Cross
        } else {
            FuturesOpenType::Unknown
        }
    }
}

impl From<i8> for FuturesOpenType {
    fn from(n: i8) -> (r: Self) {
        if n == 1 {
            FuturesOpenType::Isolated
        } else if n == 2 {
            FuturesOpenType::Cross
        } else {
            FuturesOpenType::Unknown
        }
    }
}

impl vstd::std_specs::convert::FromSpecImpl<i8> for FuturesOpenType {
    open spec fn obeys_from_spec() -> bool {
        true
    }

    open spec fn from_spec(n: i8) -> FuturesOpenType {
        FuturesOpenType::of_code(n)
    }
}

impl From<FuturesOpenType> for i8 {
    fn from(v: FuturesOpenType) -> (r: i8) {
        match v {
            FuturesOpenType::Unknown => 0,
            FuturesOpenType::Isolated => 1,
            FuturesOpenType::Cross => 2,
        }
    }
}

impl vstd::std_specs::convert::FromSpecImpl<FuturesOpenType> for i8 {
    open spec fn obeys_from_spec() -> bool {
        true
    }

    open spec fn from_spec(v: FuturesOpenType) -> i8 {
        v.code()
    }
}

impl OrderType {
    /// The wire name of the order kind.
    pub open spec fn wire_name(self) -> Seq<char> {
        match self {
            OrderType::Unknown => "UNKNOWN"@,
            OrderType::Limit => "LIMIT"@,
            OrderType::Market => "MARKET"@,
            OrderType::LimitMaker => "LIMIT_MAKER"@,
            OrderType::ImmediateOrCancel => "IMMEDIATE_OR_CANCEL"@,
            OrderType::FillOrKill => "FILL_OR_KILL"@,
        }
    }

    /// The wire name of the order kind, as it is displayed.
    pub fn to_string(&self) -> (s: String)
        ensures
            s@ == self.wire_name(),
    {
        match self {
            OrderType::Unknown => String::from_str("UNKNOWN"),
            OrderType::Limit => String::from_str("LIMIT"),
            OrderType::Market => String::from_str("MARKET"),
            OrderType::LimitMaker => String::from_str("LIMIT_MAKER"),
            OrderType::ImmediateOrCancel => String::from_str("IMMEDIATE_OR_CANCEL"),
            OrderType::FillOrKill => String::from_str("FILL_OR_KILL"),
        }
    }
}

impl OrderStatus {
    /// Whether an order in this state can change no more.
    pub open spec fn finished(self) -> bool {
        match self {
            OrderStatus::Canceled | OrderStatus::PartiallyCanceled | OrderStatus::Expired
            | OrderStatus::Filled => true,
            _ => false,
        }
    }

    /// Whether an order in this state can change no more: canceled (wholly
    /// or partly), expired or filled.
    pub fn is_finished(&self) -> (b: bool)
        ensures
            b == self.finished(),
    {
        match self {
            OrderStatus::Canceled | OrderStatus::PartiallyCanceled | OrderStatus::Expired
            | OrderStatus::Filled => true,
            _ => false,
        }
    }
}

/// Identifies an order: its market and the exchange's or the client's id.
#[derive(Debug, Clone)]
pub struct OrderId {
    pub symbol: Symbol,
    pub order_id: Option<String>,
    pub custom_order_id: Option<String>,
}

impl OrderId {
    /// An order id on `symbol` with neither id known yet.
    pub fn new(symbol: Symbol) -> (r: OrderId)
        ensures
            r.symbol == symbol,
            r.order_id is None,
            r.custom_order_id is None,
    {
        OrderId { symbol, order_id: None, custom_order_id: None }
    }

    /// The outcome of placing the order `self`, given the exchange's answer:
    /// the order with the exchange's id when the exchange took it, else the
    /// order as it was sent, with the error.
    pub fn placed(self, answer: Result<String, ExchangeError>) -> (r: Result<OrderId, (OrderId, ExchangeError)>)
        ensures
            answer matches Ok(id) ==> r == Ok::<OrderId, (OrderId, ExchangeError)>(
                OrderId { symbol: self.symbol, order_id: Some(id), custom_order_id: self.custom_order_id },
            ),
            answer matches Err(e) ==> r == Err::<OrderId, (OrderId, ExchangeError)>((self, e)),
    {
        match answer {
            Ok(id) => Ok(OrderId { symbol: self.symbol, order_id: Some(id), custom_order_id: self.custom_order_id }),
            Err(e) => Err((self, e)),
        }
    }
}

/// The numeric code of an order side reads back as the same side, and a
/// code reads as the side that has it or as `Unknown`.
pub proof fn order_side_code_round_trip(s: OrderSide, n: i8)
    ensures
        OrderSide::of_code(s.code()) == s,
        OrderSide::of_code(n).code() == n || OrderSide::of_code(n) == OrderSide::Unknown,
{
}

/// The numeric code of an order kind reads back as the same kind, and a
/// code reads as the kind that has it or as `Unknown`.
pub proof fn order_type_code_round_trip(t: OrderType, n: i8)
    ensures
        OrderType::of_code(t.code()) == t,
        OrderType::of_code(n).code() == n || OrderType::of_code(n) == OrderType::Unknown,
{
}

/// The numeric code of an order state reads back as the same state, and a
/// code reads as the state that has it or as `Unknown`.
pub proof fn order_status_code_round_trip(s: OrderStatus, n: i8)
    ensures
        OrderStatus::of_code(s.code()) == s,
        OrderStatus::of_code(n).code() == n || OrderStatus::of_code(n) == OrderStatus::Unknown,
{
}

/// The numeric code of a margin mode reads back as the same mode, and a
/// code reads as the mode that has it or as `Unknown`.
pub proof fn futures_open_type_code_round_trip(t: FuturesOpenType, n: i8)
    ensures
        FuturesOpenType::of_code(t.code()) == t,
        FuturesOpenType::of_code(n).code() == n || FuturesOpenType::of_code(n) == FuturesOpenType::Unknown,
{
}

/// The wire codes of order sides, kinds and states: sides unknown 0, buy
/// 1, close-sell 2, sell 3, close-buy 4; kinds unknown 0, limit 1,
/// limit-maker 2, immediate-or-cancel 3, fill-or-kill 4, market 5; states
/// unknown 0, new 1, partly filled 2, filled 3, canceled 4, partly canceled
/// 5, expired 6; margin modes unknown 0, isolated 1, cross 2. Distinct
/// values have distinct codes.
pub proof fn order_wire_codes(a: OrderSide, b: OrderSide, k: OrderType, l: OrderType, s: OrderStatus, t: OrderStatus)
    ensures
        OrderSide::Unknown.code() == 0 && OrderSide::Buy.code() == 1 && OrderSide::CloseSell.code() == 2
            && OrderSide::Sell.code() == 3 && OrderSide::CloseBuy.code() == 4,
        OrderType::Unknown.code() == 0 && OrderType::Limit.code() == 1 && OrderType::LimitMaker.code() == 2
            && OrderType::ImmediateOrCancel.code() == 3 && OrderType::FillOrKill.code() == 4
            && OrderType::Market.code() == 5,
        OrderStatus::Unknown.code() == 0 && OrderStatus::New.code() == 1 && OrderStatus::PartiallyFilled.code() == 2
            && OrderStatus::Filled.code() == 3 && OrderStatus::Canceled.code() == 4
            && OrderStatus::PartiallyCanceled.code() == 5 && OrderStatus::Expired.code() == 6,
        FuturesOpenType::Unknown.code() == 0 && FuturesOpenType::Isolated.code() == 1
            && FuturesOpenType::Cross.code() == 2,
        a.code() == b.code() ==> a == b,
        k.code() == l.code() ==> k == l,
        s.code() == t.code() ==> s == t,
{
}

/// An order counts as finished exactly when it is filled, canceled
/// (wholly or partly) or expired; a new, partly filled or unknown order
/// can still change.
pub proof fn finished_states_law(s: OrderStatus)
    ensures
        s.finished() <==> (s == OrderStatus::Filled || s == OrderStatus::Canceled || s
            == OrderStatus::PartiallyCanceled || s == OrderStatus::Expired),
        !OrderStatus::New.finished() && !OrderStatus::PartiallyFilled.finished() && !OrderStatus::Unknown.finished(),
{
}

} // verus!
