use crate::util::types::order::OrderId;
use crate::util::decimal::{abs, decimal_abs, decimal_is_negative, is_sign_positive};
use crate::util::types::order::OrderSide;
use crate::xt::futures_api::http::trading::{CancelOrderRequest, GetOrderRequest, PlaceOrderRequest};
use crate::xt::futures_api::types::{OrderType, PositionSide, TimeInForce};
use vstd::prelude::*;

verus! {

/// The request that cancels the futures order `order_id`: by its exchange
/// id and its client id. Spot orders are not handled.
pub fn cancel_order_request(order_id: &OrderId) -> (r: CancelOrderRequest)
    requires
        order_id.symbol.kind != crate::util::symbol::SymbolKind::Spot,
    ensures
        r.order_id == order_id.order_id,
        r.client_order_id == order_id.custom_order_id,
{
    CancelOrderRequest { order_id: order_id.order_id.clone(), client_order_id: order_id.custom_order_id.clone() }
}

/// The request that asks for the futures order `order_id`: by its exchange
/// id and its client id. Spot orders are not handled.
pub fn get_order_request(order_id: &OrderId) -> (r: GetOrderRequest)
    requires
        order_id.symbol.kind != crate::util::symbol::SymbolKind::Spot,
    ensures
        r.order_id == order_id.order_id,
        r.client_order_id == order_id.custom_order_id,
{
    GetOrderRequest { order_id: order_id.order_id.clone(), client_order_id: order_id.custom_order_id.clone() }
}

/// The request that places a futures order of `size` contracts (signed:
/// positive buys, negative sells) at `price`, under the client id
/// `custom_id`, on the `position_side` of a hedged account: the side
/// follows the sign of the size, the quantity is its magnitude, and the
/// kind gives both the order type and its time in force.
pub fn place_order_request(
    symbol_id: String,
    custom_id: String,
    size: rust_decimal::Decimal,
    price: rust_decimal::Decimal,
    kind: crate::util::types::order::OrderType,
    position_side: PositionSide,
) -> (r: PlaceOrderRequest)
    ensures
        r.symbol@ == symbol_id@,
        r.client_order_id == Some(custom_id),
        r.order_side == (if decimal_is_negative(size) { OrderSide::Sell } else { OrderSide::Buy }),
        r.position_side == position_side,
        r.order_type == OrderType::of_common(kind),
        r.time_in_force == TimeInForce::of_common(kind),
        r.orig_qty == decimal_abs(size),
        r.price == price,
{
    let order_side = if is_sign_positive(&size) {
        OrderSide::Buy
    } else {
        OrderSide::Sell
    };
    PlaceOrderRequest {
        symbol: symbol_id,
        client_order_id: Some(custom_id),
        order_side,
        position_side,
        order_type: OrderType::from(kind),
        time_in_force: TimeInForce::from(kind),
        orig_qty: abs(&size),
        price,
    }
}

} // verus!
