use vstd::prelude::*;

verus! {

/// Order side in the StandX dialect.
#[derive(Debug, Clone, Copy, PartialEq, Eq, Structural)]
pub enum OrderSide {
    Buy,
    Sell,
}

impl From<OrderSide> for crate::util::types::order::OrderSide {
    fn from(value: OrderSide) -> (r: Self) {
        match value {
            OrderSide::Buy => crate::util::types::order::OrderSide::Buy,
            OrderSide::Sell => crate::util::types::order::OrderSide::Sell,
        }
    }
}

impl vstd::std_specs::convert::FromSpecImpl<OrderSide> for crate::util::types::order::OrderSide {
    open spec fn obeys_from_spec() -> bool {
        true
    }

    open spec fn from_spec(value: OrderSide) -> crate::util::types::order::OrderSide {
        value.to_common()
    }
}

impl OrderSide {
    /// The common side of a StandX side.
    pub open spec fn to_common(self) -> crate::util::types::order::OrderSide {
        match self {
            OrderSide::Buy => crate::util::types::order::OrderSide::Buy,
            OrderSide::Sell => crate::util::types::order::OrderSide::Sell,
        }
    }
}

/// Order kind in the StandX dialect, with its numeric codes.
#[derive(Debug, Clone, Copy, PartialEq, Eq, Structural)]
pub enum OrderType {
    Unknown,
    Limit,
    Market,
}

impl OrderType {
    /// The numeric code.
    pub open spec fn code(self) -> i8 {
        match self {
            OrderType::Unknown => 0,
            OrderType::Limit => 1,
            OrderType::Market => 5,
        }
    }

    /// The kind with code `n`; other codes give `Unknown`.
    pub open spec fn of_code(n: i8) -> OrderType {
        if n == 1 {
            OrderType::Limit
        } else if n == 5 {
            OrderType::Market
        } else {
            OrderType::Unknown
        }
    }

    /// The StandX kind of a common order kind: market orders are market,
    /// unknown stays unknown, every other kind is a limit order.
    pub open spec fn of_common(value: crate::util::types::order::OrderType) -> OrderType {
        match value {
            crate::util::types::order::OrderType::Unknown => OrderType::Unknown,
            crate::util::types::order::OrderType::Market => OrderType::Market,
            _ => OrderType::Limit,
        }
    }
}

impl From<i8> for OrderType {
    fn from(n: i8) -> (r: Self) {
        if n == 1 {
            OrderType::Limit
        } else if n == 5 {
            OrderType::Market
        } else {
            OrderType::Unknown
        }
    }
}

impl vstd::std_specs::convert::FromSpecImpl<i8> for OrderType {
    open spec fn obeys_from_spec() -> bool {
        true
    }

    open spec fn from_spec(n: i8) -> OrderType {
        OrderType::of_code(n)
    }
}

impl From<OrderType> for i8 {
    fn from(v: OrderType) -> (r: i8) {
        match v {
            OrderType::Unknown => 0,
            OrderType::Limit => 1,
            OrderType::Market => 5,
        }
    }
}

impl vstd::std_specs::convert::FromSpecImpl<OrderType> for i8 {
    open spec fn obeys_from_spec() -> bool {
        true
    }

    open spec fn from_spec(v: OrderType) -> i8 {
        v.code()
    }
}

impl From<crate::util::types::order::OrderType> for OrderType {
    fn from(value: crate::util::types::order::OrderType) -> (r: Self) {
        match value {
            crate::util::types::order::OrderType::Unknown => OrderType::Unknown,
            crate::util::types::order::OrderType::Limit => OrderType::Limit,
            crate::util::types::order::OrderType::Market => OrderType::Market,
            crate::util::types::order::OrderType::LimitMaker => OrderType::Limit,
            crate::util::types::order::OrderType::ImmediateOrCancel => OrderType::Limit,
            crate::util::types::order::OrderType::FillOrKill => OrderType::Limit,
        }
    }
}

impl vstd::std_specs::convert::FromSpecImpl<crate::util::types::order::OrderType> for OrderType {
    open spec fn obeys_from_spec() -> bool {
        true
    }

    open spec fn from_spec(value: crate::util::types::order::OrderType) -> OrderType {
        OrderType::of_common(value)
    }
}

/// Time in force in the StandX dialect.
#[derive(Debug, Clone, Copy, PartialEq, Eq, Structural)]
pub enum TimeInForce {
    Gtc,
    Ioc,
    Alo,
}

impl TimeInForce {
    /// The time in force of a common order kind: market, immediate-or-cancel
    /// and fill-or-kill orders are immediate, maker-only orders add
    /// liquidity only, the rest stay until canceled.
    pub open spec fn of_common(value: crate::util::types::order::OrderType) -> TimeInForce {
        match value {
            crate::util::types::order::OrderType::Market
            | crate::util::types::order::OrderType::ImmediateOrCancel
            | crate::util::types::order::OrderType::FillOrKill => TimeInForce::Ioc,
            crate::util::types::order::OrderType::LimitMaker => TimeInForce::Alo,
            _ => TimeInForce::Gtc,
        }
    }
}

impl From<crate::util::types::order::OrderType> for TimeInForce {
    fn from(value: crate::util::types::order::OrderType) -> (r: Self) {
        match value {
            crate::util::types::order::OrderType::Unknown => TimeInForce::Gtc,
            crate::util::types::order::OrderType::Limit => TimeInForce::Gtc,
            crate::util::types::order::OrderType::Market => TimeInForce::Ioc,
            crate::util::types::order::OrderType::LimitMaker => TimeInForce::Alo,
            crate::util::types::order::OrderType::ImmediateOrCancel => TimeInForce::Ioc,
            crate::util::types::order::OrderType::FillOrKill => TimeInForce::Ioc,
        }
    }
}

impl vstd::std_specs::convert::FromSpecImpl<crate::util::types::order::OrderType> for TimeInForce {
    open spec fn obeys_from_spec() -> bool {
        true
    }

    open spec fn from_spec(value: crate::util::types::order::OrderType) -> TimeInForce {
        TimeInForce::of_common(value)
    }
}

/// Order state in the StandX dialect.
#[derive(Debug, Clone, Copy, PartialEq, Eq, Structural)]
pub enum OrderStatus {
    Unknown,
    Open,
    Filled,
    Canceled,
    Rejected,
    Untriggered,
}

impl OrderStatus {
    /// The common state of a StandX state: open and untriggered orders are
    /// new, canceled and rejected ones are canceled.
    pub open spec fn to_common(self) -> crate::util::types::order::OrderStatus {
        match self {
            OrderStatus::Unknown => crate::util::types::order::OrderStatus::Unknown,
            OrderStatus::Open | OrderStatus::Untriggered => crate::util::types::order::OrderStatus::New,
            OrderStatus::Filled => crate::util::types::order::OrderStatus::Filled,
            OrderStatus::Canceled | OrderStatus::Rejected => crate::util::types::order::OrderStatus::Canceled,
        }
    }
}

impl From<OrderStatus> for crate::util::types::order::OrderStatus {
    fn from(value: OrderStatus) -> (r: Self) {
        match value {
            OrderStatus::Unknown => crate::util::types::order::OrderStatus::Unknown,
            OrderStatus::Open | OrderStatus::Untriggered => crate::util::types::order::OrderStatus::New,
            OrderStatus::Filled => crate::util::types::order::OrderStatus::Filled,
            OrderStatus::Canceled | OrderStatus::Rejected => crate::util::types::order::OrderStatus::Canceled,
        }
    }
}

impl vstd::std_specs::convert::FromSpecImpl<OrderStatus> for crate::util::types::order::OrderStatus {
    open spec fn obeys_from_spec() -> bool {
        true
    }

    open spec fn from_spec(value: OrderStatus) -> crate::util::types::order::OrderStatus {
        value.to_common()
    }
}

/// A StandX order counts as finished exactly when it is filled, canceled or
/// rejected.
pub proof fn standx_finished_states(s: OrderStatus)
    ensures
        s.to_common().finished() <==> (s == OrderStatus::Filled || s == OrderStatus::Canceled
            || s == OrderStatus::Rejected),
{
}

/// The numeric code of a StandX order kind reads back as the same kind.
pub proof fn standx_order_type_code_round_trip(t: OrderType)
    ensures
        OrderType::of_code(t.code()) == t,
{
}

/// A market order in the StandX dialect is always an immediate order, and
/// the kinds that rest in the book become limit orders.
pub proof fn standx_market_orders_are_immediate(k: crate::util::types::order::OrderType)
    ensures
        OrderType::of_common(k) == OrderType::Market <==> k == crate::util::types::order::OrderType::Market,
        OrderType::of_common(k) == OrderType::Market ==> TimeInForce::of_common(k) == TimeInForce::Ioc,
        OrderType::of_common(k) == OrderType::Unknown <==> k == crate::util::types::order::OrderType::Unknown,
{
}

/// Every immediate order kind (market, immediate-or-cancel, fill-or-kill)
/// is sent to StandX as immediate-or-cancel; only maker-only orders add
/// liquidity only; only unknown and limit orders rest until canceled.
pub proof fn standx_time_in_force_law(k: crate::util::types::order::OrderType)
    ensures
        TimeInForce::of_common(k) == TimeInForce::Ioc <==> (k == crate::util::types::order::OrderType::Market
            || k == crate::util::types::order::OrderType::ImmediateOrCancel
            || k == crate::util::types::order::OrderType::FillOrKill),
        TimeInForce::of_common(k) == TimeInForce::Alo <==> k == crate::util::types::order::OrderType::LimitMaker,
        TimeInForce::of_common(k) == TimeInForce::Gtc <==> (k == crate::util::types::order::OrderType::Unknown
            || k == crate::util::types::order::OrderType::Limit),
{
}

/// Only a market order is a StandX market order, only an unknown kind
/// stays unknown, and every other kind is a limit order.
pub proof fn standx_order_type_law(k: crate::util::types::order::OrderType)
    ensures
        OrderType::of_common(k) == OrderType::Market <==> k == crate::util::types::order::OrderType::Market,
        OrderType::of_common(k) == OrderType::Unknown <==> k == crate::util::types::order::OrderType::Unknown,
        OrderType::of_common(k) == OrderType::Limit <==> (k != crate::util::types::order::OrderType::Market
            && k != crate::util::types::order::OrderType::Unknown),
{
}

/// The numeric codes of the StandX order kinds: unknown 0, limit 1,
/// market 5; and a code names the kind that has it or none.
pub proof fn standx_order_type_codes(n: i8)
    ensures
        OrderType::Unknown.code() == 0,
        OrderType::Limit.code() == 1,
        OrderType::Market.code() == 5,
        OrderType::of_code(n) != OrderType::Unknown ==> OrderType::of_code(n).code() == n,
        (n == 1 || n == 5) <==> OrderType::of_code(n) != OrderType::Unknown,
{
}

/// Each StandX state maps to the common state of the same meaning: a
/// filled order is filled, open and untriggered ones are new, canceled and
/// rejected ones are canceled, and an unknown state stays unknown; no
/// StandX state is partly filled, partly canceled or expired.
pub proof fn standx_status_law(s: OrderStatus)
    ensures
        s.to_common() == crate::util::types::order::OrderStatus::Filled <==> s == OrderStatus::Filled,
        s.to_common() == crate::util::types::order::OrderStatus::New <==> (s == OrderStatus::Open || s
            == OrderStatus::Untriggered),
        s.to_common() == crate::util::types::order::OrderStatus::Canceled <==> (s == OrderStatus::Canceled || s
            == OrderStatus::Rejected),
        s.to_common() == crate::util::types::order::OrderStatus::Unknown <==> s == OrderStatus::Unknown,
{
}

/// The common side of a StandX side is its namesake: a buy is a buy and a
/// sell a sell, and the two stay apart.
pub proof fn standx_side_law(a: OrderSide)
    ensures
        a.to_common() == crate::util::types::order::OrderSide::Buy <==> a == OrderSide::Buy,
        a.to_common() == crate::util::types::order::OrderSide::Sell <==> a == OrderSide::Sell,
{
}

} // verus!
