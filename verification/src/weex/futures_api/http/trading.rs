use crate::util::interface::{ApiKind, Method, Rest};
use crate::weex::futures_api::types::{OrderSide, PositionSide};
use vstd::prelude::*;

verus! {

/// Asks for an order, by the client's or the exchange's id.
#[derive(Debug, Clone)]
pub struct GetOrderRequest {
    pub client_id: Option<String>,
    pub order_id: Option<String>,
}

impl Rest for GetOrderRequest {
    open spec fn spec_api_kind(&self) -> ApiKind {
        ApiKind::FuturesApi
    }

    open spec fn spec_method(&self) -> Method {
        Method::Get
    }

    open spec fn spec_host(&self) -> Option<Seq<char>> {
        None
    }

    open spec fn spec_path(&self) -> Seq<char> {
        "/api/v1/futures/trade/get_order_detail"@
    }

    open spec fn spec_need_sign(&self) -> bool {
        true
    }

    fn api_kind(&self) -> (k: ApiKind) {
        ApiKind::FuturesApi
    }

    fn method(&self) -> (m: Method) {
        Method::Get
    }

    fn host(&self) -> (h: Option<&'static str>) {
        None
    }

    fn path(&self) -> (p: String) {
        String::from_str("/api/v1/futures/trade/get_order_detail")
    }

    fn need_sign(&self) -> (b: bool) {
        true
    }
}

/// Places an order on a hedged account. The kind gives both the Weex
/// order type and its time in force, which are written from it on the
/// wire.
#[derive(Debug)]
pub struct PlaceOrderRequest {
    pub symbol: String,
    pub client_id: Option<String>,
    pub side: OrderSide,
    pub trade_side: PositionSide,
    pub kind: crate::util::types::order::OrderType,
    pub qty: rust_decimal::Decimal,
    pub price: rust_decimal::Decimal,
}

impl Rest for PlaceOrderRequest {
    open spec fn spec_api_kind(&self) -> ApiKind {
        ApiKind::FuturesApi
    }

    open spec fn spec_method(&self) -> Method {
        Method::Post
    }

    open spec fn spec_host(&self) -> Option<Seq<char>> {
        None
    }

    open spec fn spec_path(&self) -> Seq<char> {
        "/api/v1/futures/trade/place_order"@
    }

    open spec fn spec_need_sign(&self) -> bool {
        true
    }

    fn api_kind(&self) -> (k: ApiKind) {
        ApiKind::FuturesApi
    }

    fn method(&self) -> (m: Method) {
        Method::Post
    }

    fn host(&self) -> (h: Option<&'static str>) {
        None
    }

    fn path(&self) -> (p: String) {
        String::from_str("/api/v1/futures/trade/place_order")
    }

    fn need_sign(&self) -> (b: bool) {
        true
    }
}

/// The answer to a placed order.
#[derive(Debug, Clone)]
pub struct PlaceOrderResponse {
    pub order_id: String,
}

/// Cancels orders of a market.
#[derive(Debug, Clone)]
pub struct CancelOrderRequest {
    pub symbol: String,
    pub order_list: Vec<GetOrderRequest>,
}

impl Rest for CancelOrderRequest {
    open spec fn spec_api_kind(&self) -> ApiKind {
        ApiKind::FuturesApi
    }

    open spec fn spec_method(&self) -> Method {
        Method::Post
    }

    open spec fn spec_host(&self) -> Option<Seq<char>> {
        None
    }

    open spec fn spec_path(&self) -> Seq<char> {
        "/api/v1/futures/trade/cancel_orders"@
    }

    open spec fn spec_need_sign(&self) -> bool {
        true
    }

    fn api_kind(&self) -> (k: ApiKind) {
        ApiKind::FuturesApi
    }

    fn method(&self) -> (m: Method) {
        Method::Post
    }

    fn host(&self) -> (h: Option<&'static str>) {
        None
    }

    fn path(&self) -> (p: String) {
        String::from_str("/api/v1/futures/trade/cancel_orders")
    }

    fn need_sign(&self) -> (b: bool) {
        true
    }
}

/// The answer to a cancellation.
#[derive(Debug, Clone)]
pub struct CancelOrderResponse {
}

} // verus!
