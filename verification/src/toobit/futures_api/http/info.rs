use crate::util::interface::{ApiKind, Method, Rest};
use vstd::prelude::*;

verus! {

/// Asks for the trading rules of all markets.
#[derive(Debug, Clone)]
pub struct GetInfoRequest {
}

impl Rest for GetInfoRequest {
    open spec fn spec_api_kind(&self) -> ApiKind {
        ApiKind::FuturesApi
    }

    open spec fn spec_method(&self) -> Method {
        Method::Get
    }

    open spec fn spec_host(&self) -> Option<Seq<char>> {
        None
    }

    open spec fn spec_path(&self) -> Seq<char> {
        "/api/v1/exchangeInfo"@
    }

    open spec fn spec_need_sign(&self) -> bool {
        false
    }

    fn api_kind(&self) -> (k: ApiKind) {
        ApiKind::FuturesApi
    }

    fn method(&self) -> (m: Method) {
        Method::Get
    }

    fn host(&self) -> (h: Option<&'static str>) {
        None
    }

    fn path(&self) -> (p: String) {
        String::from_str("/api/v1/exchangeInfo")
    }

    fn need_sign(&self) -> (b: bool) {
        false
    }
}

/// Asks for the index price of a market.
#[derive(Debug, Clone)]
pub struct GetIndexPriceRequest {
    pub symbol: String,
}

impl Rest for GetIndexPriceRequest {
    open spec fn spec_api_kind(&self) -> ApiKind {
        ApiKind::FuturesApi
    }

    open spec fn spec_method(&self) -> Method {
        Method::Get
    }

    open spec fn spec_host(&self) -> Option<Seq<char>> {
        None
    }

    open spec fn spec_path(&self) -> Seq<char> {
        "/quote/v1/index"@
    }

    open spec fn spec_need_sign(&self) -> bool {
        false
    }

    fn api_kind(&self) -> (k: ApiKind) {
        ApiKind::FuturesApi
    }

    fn method(&self) -> (m: Method) {
        Method::Get
    }

    fn host(&self) -> (h: Option<&'static str>) {
        None
    }

    fn path(&self) -> (p: String) {
        String::from_str("/quote/v1/index")
    }

    fn need_sign(&self) -> (b: bool) {
        false
    }
}

/// Asks for the current funding rate of a market.
#[derive(Debug, Clone)]
pub struct GetFundingRateRequest {
    pub symbol: String,
}

impl Rest for GetFundingRateRequest {
    open spec fn spec_api_kind(&self) -> ApiKind {
        ApiKind::FuturesApi
    }

    open spec fn spec_method(&self) -> Method {
        Method::Get
    }

    open spec fn spec_host(&self) -> Option<Seq<char>> {
        None
    }

    open spec fn spec_path(&self) -> Seq<char> {
        "/api/v1/futures/fundingRate"@
    }

    open spec fn spec_need_sign(&self) -> bool {
        false
    }

    fn api_kind(&self) -> (k: ApiKind) {
        ApiKind::FuturesApi
    }

    fn method(&self) -> (m: Method) {
        Method::Get
    }

    fn host(&self) -> (h: Option<&'static str>) {
        None
    }

    fn path(&self) -> (p: String) {
        String::from_str("/api/v1/futures/fundingRate")
    }

    fn need_sign(&self) -> (b: bool) {
        false
    }
}

/// Asks for the latest funding rates of a market.
#[derive(Debug, Clone)]
pub struct GetFundingRateHistoryRequest {
    pub symbol: String,
    pub limit: u8,
}

impl Rest for GetFundingRateHistoryRequest {
    open spec fn spec_api_kind(&self) -> ApiKind {
        ApiKind::FuturesApi
    }

    open spec fn spec_method(&self) -> Method {
        Method::Get
    }

    open spec fn spec_host(&self) -> Option<Seq<char>> {
        None
    }

    open spec fn spec_path(&self) -> Seq<char> {
        "/api/v1/futures/historyFundingRate"@
    }

    open spec fn spec_need_sign(&self) -> bool {
        false
    }

    fn api_kind(&self) -> (k: ApiKind) {
        ApiKind::FuturesApi
    }

    fn method(&self) -> (m: Method) {
        Method::Get
    }

    fn host(&self) -> (h: Option<&'static str>) {
        None
    }

    fn path(&self) -> (p: String) {
        String::from_str("/api/v1/futures/historyFundingRate")
    }

    fn need_sign(&self) -> (b: bool) {
        false
    }
}

} // verus!
