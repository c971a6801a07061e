use crate::util::interface::{ApiKind, Method, Rest};
use crate::xt::futures_api::types::{OrderType, PositionSide, TimeInForce};
use vstd::prelude::*;

verus! {

/// Asks for an order, by the client's or the exchange's id.
#[derive(Debug, Clone)]
pub struct GetOrderRequest {
    pub client_order_id: Option<String>,
    pub order_id: Option<String>,
}

impl Rest for GetOrderRequest {
    open spec fn spec_api_kind(&self) -> ApiKind {
        ApiKind::FuturesApi
    }

    open spec fn spec_method(&self) -> Method {
        Method::Get
    }

    open spec fn spec_host(&self) -> Option<Seq<char>> {
        None
    }

    open spec fn spec_path(&self) -> Seq<char> {
        "/future/trade/v1/order/detail"@
    }

    open spec fn spec_need_sign(&self) -> bool {
        true
    }

    fn api_kind(&self) -> (k: ApiKind) {
        ApiKind::FuturesApi
    }

    fn method(&self) -> (m: Method) {
        Method::Get
    }

    fn host(&self) -> (h: Option<&'static str>) {
        None
    }

    fn path(&self) -> (p: String) {
        String::from_str("/future/trade/v1/order/detail")
    }

    fn need_sign(&self) -> (b: bool) {
        true
    }
}

/// Places an order.
#[derive(Debug)]
pub struct PlaceOrderRequest {
    pub symbol: String,
    pub client_order_id: Option<String>,
    pub order_side: crate::util::types::order::OrderSide,
    pub position_side: PositionSide,
    pub order_type: OrderType,
    pub time_in_force: TimeInForce,
    pub orig_qty: rust_decimal::Decimal,
    pub price: rust_decimal::Decimal,
}

impl Rest for PlaceOrderRequest {
    open spec fn spec_api_kind(&self) -> ApiKind {
        ApiKind::FuturesApi
    }

    open spec fn spec_method(&self) -> Method {
        Method::Post
    }

    open spec fn spec_host(&self) -> Option<Seq<char>> {
        None
    }

    open spec fn spec_path(&self) -> Seq<char> {
        "/future/trade/v1/order/create"@
    }

    open spec fn spec_need_sign(&self) -> bool {
        true
    }

    fn api_kind(&self) -> (k: ApiKind) {
        ApiKind::FuturesApi
    }

    fn method(&self) -> (m: Method) {
        Method::Post
    }

    fn host(&self) -> (h: Option<&'static str>) {
        None
    }

    fn path(&self) -> (p: String) {
        String::from_str("/future/trade/v1/order/create")
    }

    fn need_sign(&self) -> (b: bool) {
        true
    }
}

/// The answer to a placed order: the order's id.
pub type PlaceOrderResponse = String;

/// Cancels an order, by the client's or the exchange's id.
#[derive(Debug, Clone)]
pub struct CancelOrderRequest {
    pub client_order_id: Option<String>,
    pub order_id: Option<String>,
}

impl Rest for CancelOrderRequest {
    open spec fn spec_api_kind(&self) -> ApiKind {
        ApiKind::FuturesApi
    }

    open spec fn spec_method(&self) -> Method {
        Method::Post
    }

    open spec fn spec_host(&self) -> Option<Seq<char>> {
        None
    }

    open spec fn spec_path(&self) -> Seq<char> {
        "/future/trade/v1/order/cancel"@
    }

    open spec fn spec_need_sign(&self) -> bool {
        true
    }

    fn api_kind(&self) -> (k: ApiKind) {
        ApiKind::FuturesApi
    }

    fn method(&self) -> (m: Method) {
        Method::Post
    }

    fn host(&self) -> (h: Option<&'static str>) {
        None
    }

    fn path(&self) -> (p: String) {
        String::from_str("/future/trade/v1/order/cancel")
    }

    fn need_sign(&self) -> (b: bool) {
        true
    }
}

/// The answer to a cancellation.
pub type CancelOrderResponse = String;

} // verus!
