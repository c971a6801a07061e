use crate::util::interface::{ApiKind, Method, Rest};
use vstd::prelude::*;

verus! {

/// Asks for the balances in a coin.
#[derive(Debug, Clone)]
pub struct GetBalanceRequest {
    pub coin: String,
}

impl Rest for GetBalanceRequest {
    open spec fn spec_api_kind(&self) -> ApiKind {
        ApiKind::FuturesApi
    }

    open spec fn spec_method(&self) -> Method {
        Method::Get
    }

    open spec fn spec_host(&self) -> Option<Seq<char>> {
        None
    }

    open spec fn spec_path(&self) -> Seq<char> {
        "/future/user/v1/compat/balance/list"@
    }

    open spec fn spec_need_sign(&self) -> bool {
        true
    }

    fn api_kind(&self) -> (k: ApiKind) {
        ApiKind::FuturesApi
    }

    fn method(&self) -> (m: Method) {
        Method::Get
    }

    fn host(&self) -> (h: Option<&'static str>) {
        None
    }

    fn path(&self) -> (p: String) {
        String::from_str("/future/user/v1/compat/balance/list")
    }

    fn need_sign(&self) -> (b: bool) {
        true
    }
}

/// Asks for the positions in a market.
#[derive(Debug, Clone)]
pub struct GetPositionRequest {
    pub symbol: String,
}

impl Rest for GetPositionRequest {
    open spec fn spec_api_kind(&self) -> ApiKind {
        ApiKind::FuturesApi
    }

    open spec fn spec_method(&self) -> Method {
        Method::Get
    }

    open spec fn spec_host(&self) -> Option<Seq<char>> {
        None
    }

    open spec fn spec_path(&self) -> Seq<char> {
        "/future/user/v1/position/list"@
    }

    open spec fn spec_need_sign(&self) -> bool {
        true
    }

    fn api_kind(&self) -> (k: ApiKind) {
        ApiKind::FuturesApi
    }

    fn method(&self) -> (m: Method) {
        Method::Get
    }

    fn host(&self) -> (h: Option<&'static str>) {
        None
    }

    fn path(&self) -> (p: String) {
        String::from_str("/future/user/v1/position/list")
    }

    fn need_sign(&self) -> (b: bool) {
        true
    }
}

} // verus!
