use crate::util::interface::{ApiKind, Method, Rest};
use vstd::prelude::*;

verus! {

/// The answer to a placed order.
#[derive(Debug, Clone)]
pub struct PlaceOrderResponse {
    pub order_id: String,
}

/// Cancels an order, by the client's or the exchange's id.
#[derive(Debug, Clone)]
pub struct CancelOrderRequest {
    pub orig_client_order_id: Option<String>,
    pub order_id: Option<String>,
}

impl Rest for CancelOrderRequest {
    open spec fn spec_api_kind(&self) -> ApiKind {
        ApiKind::FuturesWeb
    }

    open spec fn spec_method(&self) -> Method {
        Method::Post
    }

    open spec fn spec_host(&self) -> Option<Seq<char>> {
        None
    }

    open spec fn spec_path(&self) -> Seq<char> {
        "/capi/v1/futures/order/cancel"@
    }

    open spec fn spec_need_sign(&self) -> bool {
        true
    }

    fn api_kind(&self) -> (k: ApiKind) {
        ApiKind::FuturesWeb
    }

    fn method(&self) -> (m: Method) {
        Method::Post
    }

    fn host(&self) -> (h: Option<&'static str>) {
        None
    }

    fn path(&self) -> (p: String) {
        String::from_str("/capi/v1/futures/order/cancel")
    }

    fn need_sign(&self) -> (b: bool) {
        true
    }
}

/// The answer to a cancellation.
#[derive(Debug, Clone)]
pub struct CancelOrderResponse {
}

} // verus!
