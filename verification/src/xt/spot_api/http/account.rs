use crate::util::interface::{ApiKind, Method, Rest};
use vstd::prelude::*;

verus! {

/// Asks for the assets held in savings products.
#[derive(Debug, Clone)]
pub struct GetEarnRequest {
    pub scope: &'static str,
}

impl Rest for GetEarnRequest {
    open spec fn spec_api_kind(&self) -> ApiKind {
        ApiKind::SpotApi
    }

    open spec fn spec_method(&self) -> Method {
        Method::Get
    }

    open spec fn spec_host(&self) -> Option<Seq<char>> {
        None
    }

    open spec fn spec_path(&self) -> Seq<char> {
        "/v4/finance/balance"@
    }

    open spec fn spec_need_sign(&self) -> bool {
        true
    }

    fn api_kind(&self) -> (k: ApiKind) {
        ApiKind::SpotApi
    }

    fn method(&self) -> (m: Method) {
        Method::Get
    }

    fn host(&self) -> (h: Option<&'static str>) {
        None
    }

    fn path(&self) -> (p: String) {
        String::from_str("/v4/finance/balance")
    }

    fn need_sign(&self) -> (b: bool) {
        true
    }
}

} // verus!
