use crate::util::error::ExchangeError;
use crate::util::types::order::{OrderId, OrderSide, OrderStatus, OrderType};
use vstd::prelude::*;

verus! {

/// How long a Paradex order stays in the book.
#[derive(Debug, Clone, Copy, PartialEq, Eq, Structural)]
pub enum OrderInstruction {
    /// Good till canceled.
    Gtc,
    /// Immediate or cancel.
    Ioc,
    /// Adds liquidity or is refused.
    PostOnly,
}

/// The Paradex instruction for a common order kind: unknown and limit
/// orders stay until canceled, maker-only orders are post-only, the others
/// are immediate.
pub open spec fn instruction_of(kind: OrderType) -> OrderInstruction {
    match kind {
        OrderType::Unknown | OrderType::Limit => OrderInstruction::Gtc,
        OrderType::LimitMaker => OrderInstruction::PostOnly,
        _ => OrderInstruction::Ioc,
    }
}

/// The Paradex instruction for a common order kind.
pub fn order_instruction(kind: OrderType) -> (r: OrderInstruction)
    ensures
        r == instruction_of(kind),
{
    match kind {
        OrderType::Unknown | OrderType::Limit => OrderInstruction::Gtc,
        OrderType::Market => OrderInstruction::Ioc,
        OrderType::LimitMaker => OrderInstruction::PostOnly,
        OrderType::ImmediateOrCancel => OrderInstruction::Ioc,
        OrderType::FillOrKill => OrderInstruction::Ioc,
    }
}

/// Which cancellation to send for an order.
#[derive(Debug, Clone, PartialEq, Eq)]
pub enum CancelTarget {
    /// Cancel by the client's id.
    ClientId(String),
    /// Cancel by the exchange's id.
    OrderId(String),
}

/// Chooses how to cancel `order_id`: by the client's id when it is known,
/// else by the exchange's id; with neither the order cannot be found.
pub fn cancel_target(order_id: &OrderId) -> (r: Result<CancelTarget, ExchangeError>)
    ensures
        order_id.custom_order_id matches Some(c) ==> r == Ok::<CancelTarget, ExchangeError>(
            CancelTarget::ClientId(c),
        ),
        order_id.custom_order_id is None ==> (order_id.order_id matches Some(o) ==> r == Ok::<
            CancelTarget,
            ExchangeError,
        >(CancelTarget::OrderId(o))),
        order_id.custom_order_id is None && order_id.order_id is None ==> r == Err::<CancelTarget, ExchangeError>(
            ExchangeError::OrderNotFound,
        ),
{
    match (&order_id.order_id, &order_id.custom_order_id) {
        (_, Some(custom_order_id)) => Ok(CancelTarget::ClientId(custom_order_id.clone())),
        (Some(id), None) => Ok(CancelTarget::OrderId(id.clone())),
        (None, None) => Err(ExchangeError::OrderNotFound),
    }
}

/// Every immediate order kind (market, immediate-or-cancel, fill-or-kill)
/// is sent to Paradex as immediate-or-cancel, only maker-only orders are
/// post-only, and only unknown and limit orders rest until canceled.
pub proof fn paradex_instruction_law(k: OrderType)
    ensures
        instruction_of(k) == OrderInstruction::Ioc <==> (k == OrderType::Market || k == OrderType::ImmediateOrCancel
            || k == OrderType::FillOrKill),
        instruction_of(k) == OrderInstruction::PostOnly <==> k == OrderType::LimitMaker,
        instruction_of(k) == OrderInstruction::Gtc <==> (k == OrderType::Unknown || k == OrderType::Limit),
{
}

/// Whether a record with the exchange id `id` may stand for the order
/// asked for: any record does when the order's id is unknown.
pub open spec fn id_fits(id: Seq<char>, order_id: Option<String>) -> bool {
    match order_id {
        Some(o) => id == o@,
        None => true,
    }
}

/// Without an exchange id every record may stand for the order; with one,
/// exactly the records with that id.
pub proof fn id_fits_law(id: Seq<char>, o: String)
    ensures
        id_fits(id, None),
        id_fits(id, Some(o)) <==> id == o@,
{
}

/// The query of the order history for an order of the market
/// `symbol_id`: the market, then the client id when it is known.
pub fn order_history_query(symbol_id: String, custom_order_id: Option<String>) -> (q: Vec<(String, String)>)
    ensures
        q.len() == (if custom_order_id is Some { 2int } else { 1int }),
        q@[0].0@ == "market"@,
        q@[0].1 == symbol_id,
        custom_order_id matches Some(c) ==> q@[1].0@ == "client_id"@ && q@[1].1 == c,
{
    let mut q: Vec<(String, String)> = Vec::new();
    q.push((String::from_str("market"), symbol_id));
    if let Some(id) = custom_order_id {
        q.push((String::from_str("client_id"), id));
    }
    q
}

/// The record of the order history that answers for the order with the
/// exchange id `order_id`: the last record with that id, or the last record
/// when the id is unknown; `None` when there is none.
pub fn pick_order(ids: &Vec<String>, order_id: &Option<String>) -> (r: Option<usize>)
    ensures
        r matches Some(i) ==> i < ids.len() && id_fits(ids@[i as int]@, *order_id) && forall|j: int|
            i < j < ids.len() ==> !id_fits(#[trigger] ids@[j]@, *order_id),
        r is None ==> forall|j: int| 0 <= j < ids.len() ==> !id_fits(#[trigger] ids@[j]@, *order_id),
{
    let mut k: usize = ids.len();
    while k > 0
        invariant
            k <= ids.len(),
            forall|j: int| k <= j < ids.len() ==> !id_fits(#[trigger] ids@[j]@, *order_id),
        decreases k,
    {
        let i = k - 1;
        let fits = match order_id {
            Some(o) => ids[i] == *o,
            None => true,
        };
        if fits {
            return Some(i);
        }
        k = i;
    }
    None
}

/// The size of a history record that was filled: its size less what
/// remains of it, and nothing when more remains than was ordered.
pub open spec fn filled_size(size: u64, remaining: u64) -> u64 {
    if remaining <= size {
        (size - remaining) as u64
    } else {
        0
    }
}

/// The common state of a history record of `size` with `remaining` left to
/// fill (both counted in the market's size steps): a closed order is filled
/// when all of it was filled, canceled when none of it was and partly
/// canceled otherwise; an open order is new until something is filled, and
/// partly filled after.
pub open spec fn record_state(closed: bool, size: u64, remaining: u64) -> OrderStatus {
    let filled = filled_size(size, remaining);
    if closed {
        if filled == 0 {
            OrderStatus::Canceled
        } else if filled == size {
            OrderStatus::Filled
        } else {
            OrderStatus::PartiallyCanceled
        }
    } else if filled == 0 {
        OrderStatus::New
    } else {
        OrderStatus::PartiallyFilled
    }
}

/// The common state and side of a history record of `size` with
/// `remaining` left to fill (both counted in the market's size steps): the
/// state as `record_state` decides it; a buy is a buy, anything else a
/// sell.
pub fn order_state(closed: bool, size: u64, remaining: u64, buy: bool) -> (r: (OrderStatus, OrderSide))
    ensures
        r.0 == record_state(closed, size, remaining),
        r.1 == (if buy { OrderSide::Buy } else { OrderSide::Sell }),
{
    let filled: u64 = if remaining <= size {
        size - remaining
    } else {
        0
    };
    let state = if closed {
        if filled == 0 {
            OrderStatus::Canceled
        } else if filled == size {
            OrderStatus::Filled
        } else {
            OrderStatus::PartiallyCanceled
        }
    } else if filled == 0 {
        OrderStatus::New
    } else {
        OrderStatus::PartiallyFilled
    };
    (state, if buy { OrderSide::Buy } else { OrderSide::Sell })
}

/// The state of a history record from what remains of it: a closed record
/// is canceled when nothing of it was filled, filled when all of a nonzero
/// size was, and partly canceled when part was; an open record is new when
/// nothing was filled and partly filled otherwise.
pub proof fn record_state_law(closed: bool, size: u64, remaining: u64)
    ensures
        record_state(closed, size, remaining) == OrderStatus::Canceled <==> (closed && remaining >= size),
        record_state(closed, size, remaining) == OrderStatus::Filled <==> (closed && size > 0 && remaining == 0),
        record_state(closed, size, remaining) == OrderStatus::PartiallyCanceled <==> (closed && 0 < remaining
            < size),
        record_state(closed, size, remaining) == OrderStatus::New <==> (!closed && remaining >= size),
        record_state(closed, size, remaining) == OrderStatus::PartiallyFilled <==> (!closed && remaining < size),
{
}

/// A record counts as finished exactly when it is closed, and as filled
/// exactly when it is closed with nothing left to fill of a nonzero size.
pub proof fn record_state_finished(closed: bool, size: u64, remaining: u64)
    ensures
        record_state(closed, size, remaining).finished() <==> closed,
        record_state(closed, size, remaining) == OrderStatus::Filled <==> (closed && size > 0 && remaining == 0),
{
}

} // verus!
