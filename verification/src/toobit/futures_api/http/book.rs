use crate::util::interface::{ApiKind, Method, Rest};
use vstd::prelude::*;

verus! {

/// Asks for the order book of a market.
#[derive(Debug, Clone)]
pub struct GetDepthRequest {
    pub symbol: String,
    pub limit: u16,
}

impl Rest for GetDepthRequest {
    open spec fn spec_api_kind(&self) -> ApiKind {
        ApiKind::FuturesApi
    }

    open spec fn spec_method(&self) -> Method {
        Method::Get
    }

    open spec fn spec_host(&self) -> Option<Seq<char>> {
        None
    }

    open spec fn spec_path(&self) -> Seq<char> {
        "/quote/v1/depth"@
    }

    open spec fn spec_need_sign(&self) -> bool {
        false
    }

    fn api_kind(&self) -> (k: ApiKind) {
        ApiKind::FuturesApi
    }

    fn method(&self) -> (m: Method) {
        Method::Get
    }

    fn host(&self) -> (h: Option<&'static str>) {
        None
    }

    fn path(&self) -> (p: String) {
        String::from_str("/quote/v1/depth")
    }

    fn need_sign(&self) -> (b: bool) {
        false
    }
}

} // verus!
