use vstd::prelude::*;

verus! {

/// Which side of a hedged account a position is on.
#[derive(Debug, Clone, Copy, PartialEq, Eq, Structural)]
pub enum PositionSide {
    Unknown,
    Long,
    Short,
}

/// Order kind in the XT dialect, with its numeric codes.
#[derive(Debug, Clone, Copy, PartialEq, Eq, Structural)]
pub enum OrderType {
    Unknown,
    Limit,
    Market,
}

impl OrderType {
    /// The numeric code.
    pub open spec fn code(self) -> i8 {
        match self {
            OrderType::Unknown => 0,
            OrderType::Limit => 1,
            OrderType::Market => 5,
        }
    }

    /// The kind with code `n`; other codes give `Unknown`.
    pub open spec fn of_code(n: i8) -> OrderType {
        if n == 1 {
            OrderType::Limit
        } else if n == 5 {
            OrderType::Market
        } else {
            OrderType::Unknown
        }
    }

    /// The XT kind of a common order kind: market orders are market,
    /// unknown stays unknown, every other kind is a limit order.
    pub open spec fn of_common(value: crate::util::types::order::OrderType) -> OrderType {
        match value {
            crate::util::types::order::OrderType::Unknown => OrderType::Unknown,
            crate::util::types::order::OrderType::Market => OrderType::Market,
            _ => OrderType::Limit,
        }
    }
}

impl From<i8> for OrderType {
    fn from(n: i8) -> (r: Self) {
        if n == 1 {
            OrderType::Limit
        } else if n == 5 {
            OrderType::Market
        } else {
            OrderType::Unknown
        }
    }
}

impl vstd::std_specs::convert::FromSpecImpl<i8> for OrderType {
    open spec fn obeys_from_spec() -> bool {
        true
    }

    open spec fn from_spec(n: i8) -> OrderType {
        OrderType::of_code(n)
    }
}

impl From<OrderType> for i8 {
    fn from(v: OrderType) -> (r: i8) {
        match v {
            OrderType::Unknown => 0,
            OrderType::Limit => 1,
            OrderType::Market => 5,
        }
    }
}

impl vstd::std_specs::convert::FromSpecImpl<OrderType> for i8 {
    open spec fn obeys_from_spec() -> bool {
        true
    }

    open spec fn from_spec(v: OrderType) -> i8 {
        v.code()
    }
}

impl From<crate::util::types::order::OrderType> for OrderType {
    fn from(value: crate::util::types::order::OrderType) -> (r: Self) {
        match value {
            crate::util::types::order::OrderType::Unknown => OrderType::Unknown,
            crate::util::types::order::OrderType::Limit => OrderType::Limit,
            crate::util::types::order::OrderType::Market => OrderType::Market,
            crate::util::types::order::OrderType::LimitMaker => OrderType::Limit,
            crate::util::types::order::OrderType::ImmediateOrCancel => OrderType::Limit,
            crate::util::types::order::OrderType::FillOrKill => OrderType::Limit,
        }
    }
}

impl vstd::std_specs::convert::FromSpecImpl<crate::util::types::order::OrderType> for OrderType {
    open spec fn obeys_from_spec() -> bool {
        true
    }

    open spec fn from_spec(value: crate::util::types::order::OrderType) -> OrderType {
        OrderType::of_common(value)
    }
}

/// Time in force in the XT dialect.
#[derive(Debug, Clone, Copy, PartialEq, Eq, Structural)]
pub enum TimeInForce {
    Gtc,
    Ioc,
    Fok,
    Gtx,
}

impl TimeInForce {
    /// The time in force of a common order kind: market and
    /// immediate-or-cancel orders are immediate, fill-or-kill orders fill
    /// or die, maker-only orders are post-only, the rest stay until
    /// canceled.
    pub open spec fn of_common(value: crate::util::types::order::OrderType) -> TimeInForce {
        match value {
            crate::util::types::order::OrderType::Market
            | crate::util::types::order::OrderType::ImmediateOrCancel => TimeInForce::Ioc,
            crate::util::types::order::OrderType::FillOrKill => TimeInForce::Fok,
            crate::util::types::order::OrderType::LimitMaker => TimeInForce::Gtx,
            _ => TimeInForce::Gtc,
        }
    }
}

impl From<crate::util::types::order::OrderType> for TimeInForce {
    fn from(value: crate::util::types::order::OrderType) -> (r: Self) {
        match value {
            crate::util::types::order::OrderType::Unknown => TimeInForce::Gtc,
            crate::util::types::order::OrderType::Limit => TimeInForce::Gtc,
            crate::util::types::order::OrderType::Market => TimeInForce::Ioc,
            crate::util::types::order::OrderType::LimitMaker => TimeInForce::Gtx,
            crate::util::types::order::OrderType::ImmediateOrCancel => TimeInForce::Ioc,
            crate::util::types::order::OrderType::FillOrKill => TimeInForce::Fok,
        }
    }
}

impl vstd::std_specs::convert::FromSpecImpl<crate::util::types::order::OrderType> for TimeInForce {
    open spec fn obeys_from_spec() -> bool {
        true
    }

    open spec fn from_spec(value: crate::util::types::order::OrderType) -> TimeInForce {
        TimeInForce::of_common(value)
    }
}

/// Order state in the XT dialect.
#[derive(Debug, Clone, Copy, PartialEq, Eq, Structural)]
pub enum OrderStatus {
    Unknown,
    New,
    Filled,
    PartFilled,
    Canceled,
    PartiallyCanceled,
    Init,
}

impl OrderStatus {
    /// The numeric code of an XT state on the wire.
    pub open spec fn code(self) -> i8 {
        match self {
            OrderStatus::Unknown => 0,
            OrderStatus::New => 1,
            OrderStatus::PartFilled => 2,
            OrderStatus::Filled => 3,
            OrderStatus::Canceled => 4,
            OrderStatus::PartiallyCanceled => 5,
            OrderStatus::Init => 10,
        }
    }

    /// The common state of an XT state: new and initial orders are new,
    /// every other state has its namesake.
    pub open spec fn to_common(self) -> crate::util::types::order::OrderStatus {
        match self {
            OrderStatus::Unknown => crate::util::types::order::OrderStatus::Unknown,
            OrderStatus::New | OrderStatus::Init => crate::util::types::order::OrderStatus::New,
            OrderStatus::Filled => crate::util::types::order::OrderStatus::Filled,
            OrderStatus::PartFilled => crate::util::types::order::OrderStatus::PartiallyFilled,
            OrderStatus::PartiallyCanceled => crate::util::types::order::OrderStatus::PartiallyCanceled,
            OrderStatus::Canceled => crate::util::types::order::OrderStatus::Canceled,
        }
    }
}

impl From<OrderStatus> for crate::util::types::order::OrderStatus {
    fn from(value: OrderStatus) -> (r: Self) {
        match value {
            OrderStatus::Unknown => crate::util::types::order::OrderStatus::Unknown,
            OrderStatus::New | OrderStatus::Init => crate::util::types::order::OrderStatus::New,
            OrderStatus::Filled => crate::util::types::order::OrderStatus::Filled,
            OrderStatus::PartFilled => crate::util::types::order::OrderStatus::PartiallyFilled,
            OrderStatus::PartiallyCanceled => crate::util::types::order::OrderStatus::PartiallyCanceled,
            OrderStatus::Canceled => crate::util::types::order::OrderStatus::Canceled,
        }
    }
}

impl vstd::std_specs::convert::FromSpecImpl<OrderStatus> for crate::util::types::order::OrderStatus {
    open spec fn obeys_from_spec() -> bool {
        true
    }

    open spec fn from_spec(value: OrderStatus) -> crate::util::types::order::OrderStatus {
        value.to_common()
    }
}

/// Distinct XT order states stay distinct in the common states, but for
/// new and initial orders, which are both new.
pub proof fn xt_status_conversion_keeps_states_apart(a: OrderStatus, b: OrderStatus)
    ensures
        a.to_common() == b.to_common() ==> (a == b || (a == OrderStatus::New && b == OrderStatus::Init)
            || (a == OrderStatus::Init && b == OrderStatus::New)),
{
}

/// An XT order counts as finished exactly when it is filled or canceled,
/// wholly or partly.
pub proof fn xt_finished_states(s: OrderStatus)
    ensures
        s.to_common().finished() <==> (s == OrderStatus::Filled || s == OrderStatus::Canceled
            || s == OrderStatus::PartiallyCanceled),
{
}

/// A market order in the XT dialect is always an immediate order, and
/// the kinds that rest in the book become limit orders.
pub proof fn xt_market_orders_are_immediate(k: crate::util::types::order::OrderType)
    ensures
        OrderType::of_common(k) == OrderType::Market <==> k == crate::util::types::order::OrderType::Market,
        OrderType::of_common(k) == OrderType::Market ==> TimeInForce::of_common(k) == TimeInForce::Ioc,
        OrderType::of_common(k) == OrderType::Unknown <==> k == crate::util::types::order::OrderType::Unknown,
{
}

/// Each XT state maps to its namesake common state: the XT states number
/// their namesakes as the common states do, so every state but the
/// initial one keeps its code, and an initial order is new.
pub proof fn xt_status_namesakes(s: OrderStatus)
    ensures
        s != OrderStatus::Init ==> s.to_common().code() == s.code(),
        s == OrderStatus::Init ==> s.to_common() == crate::util::types::order::OrderStatus::New,
        s == OrderStatus::Filled ==> s.to_common() == crate::util::types::order::OrderStatus::Filled,
        s == OrderStatus::PartFilled ==> s.to_common() == crate::util::types::order::OrderStatus::PartiallyFilled,
        s == OrderStatus::Canceled ==> s.to_common() == crate::util::types::order::OrderStatus::Canceled,
        s == OrderStatus::PartiallyCanceled ==> s.to_common()
            == crate::util::types::order::OrderStatus::PartiallyCanceled,
        s.to_common() != crate::util::types::order::OrderStatus::Expired,
{
}

/// The XT time in force of an order kind: market and immediate-or-cancel
/// orders are immediate-or-cancel, only fill-or-kill orders are
/// fill-or-kill, only maker-only orders are post-only, and only unknown
/// and limit orders rest until canceled.
pub proof fn xt_time_in_force_law(k: crate::util::types::order::OrderType)
    ensures
        TimeInForce::of_common(k) == TimeInForce::Ioc <==> (k == crate::util::types::order::OrderType::Market
            || k == crate::util::types::order::OrderType::ImmediateOrCancel),
        TimeInForce::of_common(k) == TimeInForce::Fok <==> k == crate::util::types::order::OrderType::FillOrKill,
        TimeInForce::of_common(k) == TimeInForce::Gtx <==> k == crate::util::types::order::OrderType::LimitMaker,
        TimeInForce::of_common(k) == TimeInForce::Gtc <==> (k == crate::util::types::order::OrderType::Unknown
            || k == crate::util::types::order::OrderType::Limit),
{
}

/// Only a market order is an XT market order, only an unknown kind stays
/// unknown, every other kind is a limit order; the codes are unknown 0,
/// limit 1, market 5.
pub proof fn xt_order_type_law(k: crate::util::types::order::OrderType, n: i8)
    ensures
        OrderType::of_common(k) == OrderType::Market <==> k == crate::util::types::order::OrderType::Market,
        OrderType::of_common(k) == OrderType::Unknown <==> k == crate::util::types::order::OrderType::Unknown,
        OrderType::of_common(k) == OrderType::Limit <==> (k != crate::util::types::order::OrderType::Market
            && k != crate::util::types::order::OrderType::Unknown),
        OrderType::Unknown.code() == 0 && OrderType::Limit.code() == 1 && OrderType::Market.code() == 5,
        (n == 1 || n == 5) <==> OrderType::of_code(n) != OrderType::Unknown,
        OrderType::of_code(n) != OrderType::Unknown ==> OrderType::of_code(n).code() == n,
{
}

} // verus!
