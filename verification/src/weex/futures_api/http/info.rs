use crate::util::interface::{ApiKind, Method, Rest};
use vstd::prelude::*;

verus! {

/// Asks for the premium index of a market, funding rate included.
#[derive(Debug, Clone)]
pub struct GetFundingRateRequest {
    pub symbol: String,
}

impl Rest for GetFundingRateRequest {
    open spec fn spec_api_kind(&self) -> ApiKind {
        ApiKind::FuturesApi
    }

    open spec fn spec_method(&self) -> Method {
        Method::Get
    }

    open spec fn spec_host(&self) -> Option<Seq<char>> {
        None
    }

    open spec fn spec_path(&self) -> Seq<char> {
        "/capi/v3/market/premiumIndex"@
    }

    open spec fn spec_need_sign(&self) -> bool {
        false
    }

    fn api_kind(&self) -> (k: ApiKind) {
        ApiKind::FuturesApi
    }

    fn method(&self) -> (m: Method) {
        Method::Get
    }

    fn host(&self) -> (h: Option<&'static str>) {
        None
    }

    fn path(&self) -> (p: String) {
        String::from_str("/capi/v3/market/premiumIndex")
    }

    fn need_sign(&self) -> (b: bool) {
        false
    }
}

/// Asks for the funding rates of a market since a time.
#[derive(Debug, Clone)]
pub struct GetFundingRateHistoryRequest {
    pub symbol: String,
    pub start_time: u64,
    pub limit: u8,
}

impl Rest for GetFundingRateHistoryRequest {
    open spec fn spec_api_kind(&self) -> ApiKind {
        ApiKind::FuturesApi
    }

    open spec fn spec_method(&self) -> Method {
        Method::Get
    }

    open spec fn spec_host(&self) -> Option<Seq<char>> {
        None
    }

    open spec fn spec_path(&self) -> Seq<char> {
        "/capi/v3/market/fundingRate"@
    }

    open spec fn spec_need_sign(&self) -> bool {
        false
    }

    fn api_kind(&self) -> (k: ApiKind) {
        ApiKind::FuturesApi
    }

    fn method(&self) -> (m: Method) {
        Method::Get
    }

    fn host(&self) -> (h: Option<&'static str>) {
        None
    }

    fn path(&self) -> (p: String) {
        String::from_str("/capi/v3/market/fundingRate")
    }

    fn need_sign(&self) -> (b: bool) {
        false
    }
}

} // verus!
