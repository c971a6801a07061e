use crate::util::error::ExchangeError;
use crate::util::decimal::{abs, decimal_abs, decimal_is_negative, is_sign_positive};
use crate::util::types::order::OrderId;
use crate::weex::futures_api::http::trading::{PlaceOrderRequest, PlaceOrderResponse};
use crate::weex::futures_api::types::{OrderSide, PositionSide};
use vstd::prelude::*;

verus! {

/// Whether an order listed with the client id `client_id` is the order
/// with the client id `id`.
pub open spec fn client_id_is(client_id: Option<String>, id: Seq<char>) -> bool {
    match client_id {
        Some(c) => c@ == id,
        None => false,
    }
}

/// An order listed without a client id is never the one looked for, and
/// one listed with a client id is exactly when the ids agree.
pub proof fn client_id_law(c: String, id: Seq<char>)
    ensures
        !client_id_is(None, id),
        client_id_is(Some(c), id) <==> c@ == id,
{
}

/// The first order of a list, given by client ids, that carries the client
/// id `id`; `None` when no order does.
pub fn find_client_order(client_ids: &Vec<Option<String>>, id: &String) -> (r: Option<usize>)
    ensures
        r matches Some(i) ==> i < client_ids.len() && client_id_is(client_ids@[i as int], id@) && forall|j: int|
            0 <= j < i ==> !client_id_is(#[trigger] client_ids@[j], id@),
        r is None ==> forall|j: int| 0 <= j < client_ids.len() ==> !client_id_is(#[trigger] client_ids@[j], id@),
{
    let mut i: usize = 0;
    while i < client_ids.len()
        invariant
            i <= client_ids.len(),
            forall|j: int| 0 <= j < i ==> !client_id_is(#[trigger] client_ids@[j], id@),
        decreases client_ids.len() - i,
    {
        let found = match &client_ids[i] {
            Some(c) => *c == *id,
            None => false,
        };
        if found {
            return Some(i);
        }
        i = i + 1;
    }
    None
}

/// Whether `i` is the first order of the list carrying the client id `id`.
pub open spec fn first_client_order(client_ids: Seq<Option<String>>, id: Seq<char>, i: int) -> bool {
    &&& 0 <= i < client_ids.len()
    &&& client_id_is(client_ids[i], id)
    &&& forall|j: int| 0 <= j < i ==> !client_id_is(#[trigger] client_ids[j], id)
}

/// Whether no order of the list carries the client id `id`.
pub open spec fn no_client_order(client_ids: Seq<Option<String>>, id: Seq<char>) -> bool {
    forall|j: int| 0 <= j < client_ids.len() ==> !client_id_is(#[trigger] client_ids[j], id)
}

/// Where the lookup of an order stands.
#[derive(Debug, Clone, PartialEq, Eq)]
pub enum LookupState {
    /// The order was asked for by its exchange id.
    AwaitOrder,
    /// The open orders were asked for, to find this client id.
    AwaitOpen(String),
    /// The closed orders were asked for, to find this client id.
    AwaitClosed(String),
    /// The lookup is over.
    Done,
}

/// What the lookup of an order does next.
#[derive(Debug, Clone, PartialEq, Eq)]
pub enum LookupAction {
    /// Ask for the order with this exchange id.
    GetOrder(String),
    /// Ask for the open orders of the market.
    ListOpen,
    /// Ask for the closed orders of the market.
    ListClosed,
    /// The order is this record of the last answer.
    Found(usize),
    /// There is no such order.
    NotFound,
}

/// The first step of looking up the futures order `order_id`: ask for it
/// by its exchange id when that is known, else list the open orders to
/// find its client id; with neither id the order cannot be found. Spot
/// orders are not handled.
pub fn start_lookup(order_id: &OrderId) -> (r: (LookupState, LookupAction))
    requires
        order_id.symbol.kind != crate::util::symbol::SymbolKind::Spot,
    ensures
        order_id.order_id matches Some(o) ==> r == (LookupState::AwaitOrder, LookupAction::GetOrder(o)),
        order_id.order_id is None ==> (order_id.custom_order_id matches Some(c) ==> r == (
            LookupState::AwaitOpen(c),
            LookupAction::ListOpen,
        )),
        order_id.order_id is None && order_id.custom_order_id is None ==> r == (
            LookupState::Done,
            LookupAction::NotFound,
        ),
{
    match (&order_id.order_id, &order_id.custom_order_id) {
        (Some(id), _) => (LookupState::AwaitOrder, LookupAction::GetOrder(id.clone())),
        (None, Some(id)) => (LookupState::AwaitOpen(id.clone()), LookupAction::ListOpen),
        (None, None) => (LookupState::Done, LookupAction::NotFound),
    }
}

/// The next step of a lookup in `state`, given the answer to its last
/// request as the client ids of the orders it holds: the order asked for
/// by id is the answer's record; an order found among the open orders is
/// found, else the closed orders are asked for; an order missing from the
/// closed orders too cannot be found.
pub fn get_order_step(state: LookupState, answer: &Vec<Option<String>>) -> (r: (LookupState, LookupAction))
    ensures
        state is AwaitOrder ==> r == (if answer.len() > 0 {
            (LookupState::Done, LookupAction::Found(0))
        } else {
            (LookupState::Done, LookupAction::NotFound)
        }),
        state matches LookupState::AwaitOpen(c) ==> (no_client_order(answer@, c@) ==> r == (
            LookupState::AwaitClosed(c),
            LookupAction::ListClosed,
        )) && (!no_client_order(answer@, c@) ==> r.0 == LookupState::Done && (r.1 matches LookupAction::Found(
            i,
        ) && first_client_order(answer@, c@, i as int))),
        state matches LookupState::AwaitClosed(c) ==> (no_client_order(answer@, c@) ==> r == (
            LookupState::Done,
            LookupAction::NotFound,
        )) && (!no_client_order(answer@, c@) ==> r.0 == LookupState::Done && (r.1 matches LookupAction::Found(
            i,
        ) && first_client_order(answer@, c@, i as int))),
        state is Done ==> r == (LookupState::Done, LookupAction::NotFound),
{
    match state {
        LookupState::AwaitOrder => {
            if answer.len() > 0 {
                (LookupState::Done, LookupAction::Found(0))
            } else {
                (LookupState::Done, LookupAction::NotFound)
            }
        },
        LookupState::AwaitOpen(c) => match find_client_order(answer, &c) {
            Some(i) => (LookupState::Done, LookupAction::Found(i)),
            None => (LookupState::AwaitClosed(c), LookupAction::ListClosed),
        },
        LookupState::AwaitClosed(c) => match find_client_order(answer, &c) {
            Some(i) => (LookupState::Done, LookupAction::Found(i)),
            None => (LookupState::Done, LookupAction::NotFound),
        },
        LookupState::Done => (LookupState::Done, LookupAction::NotFound),
    }
}

/// The request that places a futures order of `size` contracts (signed:
/// positive buys, negative sells) at `price`, under the client id
/// `custom_id`, on the `position_side` of a hedged account: the side
/// follows the sign of the size, the quantity is its magnitude, and the
/// kind is carried as it is.
pub fn place_order_request(
    symbol_id: String,
    custom_id: String,
    size: rust_decimal::Decimal,
    price: rust_decimal::Decimal,
    kind: crate::util::types::order::OrderType,
    position_side: PositionSide,
) -> (r: PlaceOrderRequest)
    ensures
        r.symbol@ == symbol_id@,
        r.client_id == Some(custom_id),
        r.side == (if decimal_is_negative(size) { OrderSide::Sell } else { OrderSide::Buy }),
        r.trade_side == position_side,
        r.kind == kind,
        r.qty == decimal_abs(size),
        r.price == price,
{
    let side = if is_sign_positive(&size) {
        OrderSide::Buy
    } else {
        OrderSide::Sell
    };
    PlaceOrderRequest {
        symbol: symbol_id,
        client_id: Some(custom_id),
        side,
        trade_side: position_side,
        kind,
        qty: abs(&size),
        price,
    }
}

/// The outcome of placing the order `id`: with the id the exchange gave it
/// when the exchange took it, else the order as it was sent, with the
/// error.
pub fn placed_order(id: OrderId, answer: Result<PlaceOrderResponse, ExchangeError>) -> (r: Result<
    OrderId,
    (OrderId, ExchangeError),
>)
    ensures
        answer matches Ok(a) ==> r == Ok::<OrderId, (OrderId, ExchangeError)>(
            OrderId { symbol: id.symbol, order_id: Some(a.order_id), custom_order_id: id.custom_order_id },
        ),
        answer matches Err(e) ==> r == Err::<OrderId, (OrderId, ExchangeError)>((id, e)),
{
    let answer = match answer {
        Ok(a) => Ok(a.order_id),
        Err(e) => Err(e),
    };
    id.placed(answer)
}

} // verus!
