use crate::util::interface::{ApiKind, Method, Rest};
use vstd::prelude::*;

verus! {

/// Asks for the account assets.
#[derive(Debug, Clone)]
pub struct GetBalanceRequest {
}

impl Rest for GetBalanceRequest {
    open spec fn spec_api_kind(&self) -> ApiKind {
        ApiKind::FuturesApi
    }

    open spec fn spec_method(&self) -> Method {
        Method::Get
    }

    open spec fn spec_host(&self) -> Option<Seq<char>> {
        None
    }

    open spec fn spec_path(&self) -> Seq<char> {
        "/capi/v2/account/assets"@
    }

    open spec fn spec_need_sign(&self) -> bool {
        true
    }

    fn api_kind(&self) -> (k: ApiKind) {
        ApiKind::FuturesApi
    }

    fn method(&self) -> (m: Method) {
        Method::Get
    }

    fn host(&self) -> (h: Option<&'static str>) {
        None
    }

    fn path(&self) -> (p: String) {
        String::from_str("/capi/v2/account/assets")
    }

    fn need_sign(&self) -> (b: bool) {
        true
    }
}

/// Asks for the positions in a market.
#[derive(Debug, Clone)]
pub struct GetPositionRequest {
    pub symbol: String,
}

impl Rest for GetPositionRequest {
    open spec fn spec_api_kind(&self) -> ApiKind {
        ApiKind::FuturesApi
    }

    open spec fn spec_method(&self) -> Method {
        Method::Get
    }

    open spec fn spec_host(&self) -> Option<Seq<char>> {
        None
    }

    open spec fn spec_path(&self) -> Seq<char> {
        "/capi/v2/account/position/singlePosition"@
    }

    open spec fn spec_need_sign(&self) -> bool {
        true
    }

    fn api_kind(&self) -> (k: ApiKind) {
        ApiKind::FuturesApi
    }

    fn method(&self) -> (m: Method) {
        Method::Get
    }

    fn host(&self) -> (h: Option<&'static str>) {
        None
    }

    fn path(&self) -> (p: String) {
        String::from_str("/capi/v2/account/position/singlePosition")
    }

    fn need_sign(&self) -> (b: bool) {
        true
    }
}

} // verus!
