use crate::util::types::order::OrderId;
use crate::standx::futures_api::http::trading::{CancelOrderRequest, GetOrderRequest, PlaceOrderRequest, PlaceOrderResponse};
use crate::util::error::ExchangeError;
use crate::standx::futures_api::types::{OrderSide, OrderType, TimeInForce};
use crate::util::decimal::{abs, decimal_abs, decimal_is_negative, is_sign_positive};
use vstd::prelude::*;

verus! {

/// The request that cancels the futures order `order_id`: by its exchange
/// id and its client id. Spot orders are not handled.
pub fn cancel_order_request(order_id: &OrderId) -> (r: CancelOrderRequest)
    requires
        order_id.symbol.kind != crate::util::symbol::SymbolKind::Spot,
    ensures
        r.order_id == order_id.order_id,
        r.cl_ord_id == order_id.custom_order_id,
{
    CancelOrderRequest { order_id: order_id.order_id.clone(), cl_ord_id: order_id.custom_order_id.clone() }
}

/// The request that asks for the futures order `order_id`: by its exchange
/// id and its client id. Spot orders are not handled.
pub fn get_order_request(order_id: &OrderId) -> (r: GetOrderRequest)
    requires
        order_id.symbol.kind != crate::util::symbol::SymbolKind::Spot,
    ensures
        r.order_id == order_id.order_id,
        r.cl_ord_id == order_id.custom_order_id,
{
    GetOrderRequest { order_id: order_id.order_id.clone(), cl_ord_id: order_id.custom_order_id.clone() }
}

/// The request that places a futures order of `size` contracts (signed:
/// positive buys, negative sells) at `price`, under the client id
/// `custom_id`: the side follows the sign of the size, the quantity is its
/// magnitude, and the kind gives both the order type and its time in force.
/// The order never only reduces a position.
pub fn place_order_request(
    symbol_id: String,
    custom_id: String,
    size: rust_decimal::Decimal,
    price: rust_decimal::Decimal,
    kind: crate::util::types::order::OrderType,
) -> (r: PlaceOrderRequest)
    ensures
        r.symbol@ == symbol_id@,
        r.cl_ord_id == Some(custom_id),
        r.side == (if decimal_is_negative(size) { OrderSide::Sell } else { OrderSide::Buy }),
        !r.reduce_only,
        r.order_type == OrderType::of_common(kind),
        r.time_in_force == TimeInForce::of_common(kind),
        r.qty == decimal_abs(size),
        r.price == price,
{
    let side = if is_sign_positive(&size) {
        OrderSide::Buy
    } else {
        OrderSide::Sell
    };
    PlaceOrderRequest {
        symbol: symbol_id,
        cl_ord_id: Some(custom_id),
        side,
        reduce_only: false,
        order_type: OrderType::from(kind),
        time_in_force: TimeInForce::from(kind),
        qty: abs(&size),
        price,
    }
}

/// The outcome of placing the order `id`: StandX answers with no id, so a
/// taken order keeps the ids it was sent with; a refused one comes back
/// with the error.
pub fn placed_order(id: OrderId, answer: Result<PlaceOrderResponse, ExchangeError>) -> (r: Result<
    OrderId,
    (OrderId, ExchangeError),
>)
    ensures
        answer is Ok ==> r == Ok::<OrderId, (OrderId, ExchangeError)>(id),
        answer matches Err(e) ==> r == Err::<OrderId, (OrderId, ExchangeError)>((id, e)),
{
    match answer {
        Ok(_) => Ok(id),
        Err(e) => Err((id, e)),
    }
}

} // verus!
