use crate::util::interface::{ApiKind, Method, Rest};
use crate::standx::futures_api::types::{OrderSide, OrderType, TimeInForce};
use vstd::prelude::*;

verus! {

/// Asks for an order, by the client's or the exchange's id.
#[derive(Debug, Clone)]
pub struct GetOrderRequest {
    pub cl_ord_id: Option<String>,
    pub order_id: Option<String>,
}

impl Rest for GetOrderRequest {
    open spec fn spec_api_kind(&self) -> ApiKind {
        ApiKind::FuturesApi
    }

    open spec fn spec_method(&self) -> Method {
        Method::Get
    }

    open spec fn spec_host(&self) -> Option<Seq<char>> {
        None
    }

    open spec fn spec_path(&self) -> Seq<char> {
        "/api/query_order"@
    }

    open spec fn spec_need_sign(&self) -> bool {
        false
    }

    fn api_kind(&self) -> (k: ApiKind) {
        ApiKind::FuturesApi
    }

    fn method(&self) -> (m: Method) {
        Method::Get
    }

    fn host(&self) -> (h: Option<&'static str>) {
        None
    }

    fn path(&self) -> (p: String) {
        String::from_str("/api/query_order")
    }

    fn need_sign(&self) -> (b: bool) {
        false
    }
}

/// Places an order.
#[derive(Debug)]
pub struct PlaceOrderRequest {
    pub symbol: String,
    pub cl_ord_id: Option<String>,
    pub side: OrderSide,
    pub reduce_only: bool,
    pub order_type: OrderType,
    pub time_in_force: TimeInForce,
    pub qty: rust_decimal::Decimal,
    pub price: rust_decimal::Decimal,
}

impl Rest for PlaceOrderRequest {
    open spec fn spec_api_kind(&self) -> ApiKind {
        ApiKind::FuturesApi
    }

    open spec fn spec_method(&self) -> Method {
        Method::Post
    }

    open spec fn spec_host(&self) -> Option<Seq<char>> {
        None
    }

    open spec fn spec_path(&self) -> Seq<char> {
        "/api/new_order"@
    }

    open spec fn spec_need_sign(&self) -> bool {
        true
    }

    fn api_kind(&self) -> (k: ApiKind) {
        ApiKind::FuturesApi
    }

    fn method(&self) -> (m: Method) {
        Method::Post
    }

    fn host(&self) -> (h: Option<&'static str>) {
        None
    }

    fn path(&self) -> (p: String) {
        String::from_str("/api/new_order")
    }

    fn need_sign(&self) -> (b: bool) {
        true
    }
}

/// The answer to a placed order.
#[derive(Debug, Clone)]
pub struct PlaceOrderResponse {
}

/// Cancels an order, by the client's or the exchange's id.
#[derive(Debug, Clone)]
pub struct CancelOrderRequest {
    pub cl_ord_id: Option<String>,
    pub order_id: Option<String>,
}

impl Rest for CancelOrderRequest {
    open spec fn spec_api_kind(&self) -> ApiKind {
        ApiKind::FuturesApi
    }

    open spec fn spec_method(&self) -> Method {
        Method::Post
    }

    open spec fn spec_host(&self) -> Option<Seq<char>> {
        None
    }

    open spec fn spec_path(&self) -> Seq<char> {
        "/api/cancel_order"@
    }

    open spec fn spec_need_sign(&self) -> bool {
        true
    }

    fn api_kind(&self) -> (k: ApiKind) {
        ApiKind::FuturesApi
    }

    fn method(&self) -> (m: Method) {
        Method::Post
    }

    fn host(&self) -> (h: Option<&'static str>) {
        None
    }

    fn path(&self) -> (p: String) {
        String::from_str("/api/cancel_order")
    }

    fn need_sign(&self) -> (b: bool) {
        true
    }
}

/// The answer to a cancellation.
#[derive(Debug, Clone)]
pub struct CancelOrderResponse {
}

} // verus!
