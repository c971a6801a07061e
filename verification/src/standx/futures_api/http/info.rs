use crate::util::interface::{ApiKind, Method, Rest};
use vstd::prelude::*;

verus! {

/// Asks for the trading rules of a market.
#[derive(Debug, Clone)]
pub struct GetInfoRequest {
    pub symbol: String,
}

impl Rest for GetInfoRequest {
    open spec fn spec_api_kind(&self) -> ApiKind {
        ApiKind::FuturesApi
    }

    open spec fn spec_method(&self) -> Method {
        Method::Get
    }

    open spec fn spec_host(&self) -> Option<Seq<char>> {
        None
    }

    open spec fn spec_path(&self) -> Seq<char> {
        "/api/query_symbol_info"@
    }

    open spec fn spec_need_sign(&self) -> bool {
        false
    }

    fn api_kind(&self) -> (k: ApiKind) {
        ApiKind::FuturesApi
    }

    fn method(&self) -> (m: Method) {
        Method::Get
    }

    fn host(&self) -> (h: Option<&'static str>) {
        None
    }

    fn path(&self) -> (p: String) {
        String::from_str("/api/query_symbol_info")
    }

    fn need_sign(&self) -> (b: bool) {
        false
    }
}

/// Asks for the market data of a market, funding rate included.
#[derive(Debug, Clone)]
pub struct GetFundingRateRequest {
    pub symbol: String,
}

impl Rest for GetFundingRateRequest {
    open spec fn spec_api_kind(&self) -> ApiKind {
        ApiKind::FuturesApi
    }

    open spec fn spec_method(&self) -> Method {
        Method::Get
    }

    open spec fn spec_host(&self) -> Option<Seq<char>> {
        None
    }

    open spec fn spec_path(&self) -> Seq<char> {
        "/api/query_symbol_market"@
    }

    open spec fn spec_need_sign(&self) -> bool {
        false
    }

    fn api_kind(&self) -> (k: ApiKind) {
        ApiKind::FuturesApi
    }

    fn method(&self) -> (m: Method) {
        Method::Get
    }

    fn host(&self) -> (h: Option<&'static str>) {
        None
    }

    fn path(&self) -> (p: String) {
        String::from_str("/api/query_symbol_market")
    }

    fn need_sign(&self) -> (b: bool) {
        false
    }
}

/// Asks for the funding rates of a market within a time span.
#[derive(Debug, Clone)]
pub struct GetFundingRateHistoryRequest {
    pub symbol: String,
    pub start_time: u64,
    pub end_time: u64,
}

impl Rest for GetFundingRateHistoryRequest {
    open spec fn spec_api_kind(&self) -> ApiKind {
        ApiKind::FuturesApi
    }

    open spec fn spec_method(&self) -> Method {
        Method::Get
    }

    open spec fn spec_host(&self) -> Option<Seq<char>> {
        None
    }

    open spec fn spec_path(&self) -> Seq<char> {
        "/api/query_funding_rates"@
    }

    open spec fn spec_need_sign(&self) -> bool {
        false
    }

    fn api_kind(&self) -> (k: ApiKind) {
        ApiKind::FuturesApi
    }

    fn method(&self) -> (m: Method) {
        Method::Get
    }

    fn host(&self) -> (h: Option<&'static str>) {
        None
    }

    fn path(&self) -> (p: String) {
        String::from_str("/api/query_funding_rates")
    }

    fn need_sign(&self) -> (b: bool) {
        false
    }
}

} // verus!
