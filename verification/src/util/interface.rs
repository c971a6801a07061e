use vstd::prelude::*;

verus! {

/// Which API family a request belongs to.
#[derive(Debug, Clone, Copy, PartialEq, Eq, Structural)]
pub enum ApiKind {
    Common,
    SpotApi,
    SpotWeb,
    FuturesApi,
    FuturesWeb,
}

/// HTTP request method.
#[derive(Debug, Clone, Copy, PartialEq, Eq, Structural)]
pub enum Method {
    Options,
    Get,
    Post,
    Put,
    Delete,
    Head,
    Trace,
    Connect,
    Patch,
}

impl Method {
    /// Whether the parameters of a request with this method travel in the
    /// query string (`GET` and `DELETE`) rather than in the body.
    pub fn uses_query(&self) -> (b: bool)
        ensures
            b <==> (*self == Method::Get || *self == Method::Delete),
    {
        match self {
            Method::Get | Method::Delete => true,
            _ => false,
        }
    }
}

/// The view of an optional static host.
pub open spec fn host_view(h: Option<&'static str>) -> Option<Seq<char>> {
    match h {
        Some(s) => Some(s@),
        None => None,
    }
}

/// A REST request of an exchange: what it is, where it goes and whether it
/// must be signed.
pub trait Rest {
    spec fn spec_api_kind(&self) -> ApiKind;

    spec fn spec_method(&self) -> Method;

    spec fn spec_host(&self) -> Option<Seq<char>>;

    spec fn spec_path(&self) -> Seq<char>;

    spec fn spec_need_sign(&self) -> bool;

    fn api_kind(&self) -> (k: ApiKind)
        ensures
            k == self.spec_api_kind(),
    ;

    /// Get request method.
    fn method(&self) -> (m: Method)
        ensures
            m == self.spec_method(),
    ;

    /// Whether amend host.
    fn host(&self) -> (h: Option<&'static str>)
        ensures
            host_view(h) == self.spec_host(),
    ;

    /// Get request path.
    fn path(&self) -> (p: String)
        ensures
            p@ == self.spec_path(),
    ;

    /// Whether need sign.
    fn need_sign(&self) -> (b: bool)
        ensures
            b == self.spec_need_sign(),
    ;
}

} // verus!
