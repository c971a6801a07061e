pub mod info;
pub mod trading;

use crate::standx::key::{now_millis, Key, ParamsFormat};
use crate::util::http::{header, Request, RequestView};
use crate::util::interface::{ApiKind, Method, Rest};
use crate::util::text::u64_to_decimal;
use vstd::prelude::*;

verus! {

/// The host requests go to unless they name their own.
pub open spec fn default_host() -> Seq<char> {
    "https://perps.standx.com"@
}

/// The request that carries `req` to StandX at time `now` (milliseconds),
/// for parameters written as the query string `query` and as the JSON text
/// `json`: the URL is host and path, with the query string for `GET` and
/// `DELETE`; the session token is sent as a bearer token; a request that
/// needs a signature carries the version, the time as id and timestamp, and
/// the signature of its JSON text; the body is the JSON text unless the
/// parameters went into the URL.
pub open spec fn standx_request(
    method: Method,
    host: Option<Seq<char>>,
    path: Seq<char>,
    need_sign: bool,
    key: Key,
    now: u64,
    query: Seq<char>,
    json: Seq<char>,
) -> RequestView {
    let base = match host {
        Some(h) => h,
        None => default_host(),
    };
    let in_query = method == Method::Get || method == Method::Delete;
    let sign_headers = if need_sign {
        seq![
            ("x-request-sign-version"@, "v1"@),
            ("x-request-id"@, crate::util::text::decimal(now as nat)),
            ("x-request-timestamp"@, crate::util::text::decimal(now as nat)),
            ("x-request-signature"@, crate::standx::key::signature_of(
                key.secret@,
                crate::standx::key::signing_message(now, now, json),
            ).unwrap()),
        ]
    } else {
        Seq::<(Seq<char>, Seq<char>)>::empty()
    };
    RequestView {
        method,
        url: if in_query {
            base + path + "?"@ + query
        } else {
            base + path
        },
        headers: seq![("Authorization"@, "Bearer "@ + key.jwt@)] + sign_headers + seq![
            ("content-type"@, if in_query {
                "application/x-www-form-urlencoded"@
            } else {
                "application/json"@
            }),
        ],
        body: if in_query {
            Seq::<char>::empty()
        } else {
            json
        },
    }
}

/// What a StandX request carries: the parameters travel in the URL after a
/// `?` with an empty body exactly for `GET` and `DELETE`, and as the JSON
/// body otherwise; the session token always comes first as a bearer token;
/// a request that needs a signature carries four more headers, with the
/// time as id and timestamp and the signature of the JSON text signed at
/// that time; the content type comes last.
pub proof fn standx_request_law(
    method: Method,
    host: Option<Seq<char>>,
    path: Seq<char>,
    need_sign: bool,
    key: Key,
    now: u64,
    query: Seq<char>,
    json: Seq<char>,
)
    ensures
        ({
            let r = standx_request(method, host, path, need_sign, key, now, query, json);
            let base = if host is Some { host->0 } else { "https://perps.standx.com"@ };
            &&& r.method == method
            &&& (method == Method::Get || method == Method::Delete) ==> r.url == base + path + "?"@ + query
                && r.body.len() == 0
            &&& !(method == Method::Get || method == Method::Delete) ==> r.url == base + path && r.body == json
            &&& r.headers.len() == (if need_sign { 6int } else { 2int })
            &&& r.headers[0] == ("Authorization"@, "Bearer "@ + key.jwt@)
            &&& need_sign ==> r.headers[2].1 == crate::util::text::decimal(now as nat) && r.headers[3].1
                == crate::util::text::decimal(now as nat) && r.headers[4].1 == crate::standx::key::signature_of(
                key.secret@,
                crate::standx::key::signing_message(now, now, json),
            ).unwrap()
        }),
{
}

/// Builds the HTTP request for `req` at time `now` (milliseconds); `query`
/// and `json` are its parameters as a query string and as JSON.
pub fn req_to_http_at<Req: Rest>(req: &Req, key: &Key, now: u64, query: &str, json: &str) -> (r: Request)
    requires
        req.spec_need_sign() ==> key.usable(),
    ensures
        r@ =~= standx_request(
            req.spec_method(),
            req.spec_host(),
            req.spec_path(),
            req.spec_need_sign(),
            *key,
            now,
            query@,
            json@,
        ),
{
    let method = req.method();
    let mut url = match req.host() {
        Some(h) => String::from_str(h),
        None => String::from_str("https://perps.standx.com"),
    };
    let path = req.path();
    url.append(path.as_str());
    let mut headers: Vec<(String, String)> = Vec::new();
    let mut bearer = String::from_str("Bearer ");
    bearer.append(key.jwt.as_str());
    headers.push(header("Authorization", bearer));
    if req.need_sign() {
        let signature = key.params_at(req, now).signed(key, ParamsFormat::Json, ApiKind::FuturesApi, query, json);
        headers.push(header("x-request-sign-version", String::from_str("v1")));
        headers.push(header("x-request-id", u64_to_decimal(signature.signing.id)));
        headers.push(header("x-request-timestamp", u64_to_decimal(signature.signing.timestamp)));
        headers.push(header("x-request-signature", signature.signature));
    }
    let body = if method.uses_query() {
        url.append("?");
        url.append(query);
        headers.push(header("content-type", String::from_str("application/x-www-form-urlencoded")));
        String::new()
    } else {
        headers.push(header("content-type", String::from_str("application/json")));
        String::from_str(json)
    };
    let r = Request { method, url, headers, body };
    proof {
        let expected = standx_request(
            req.spec_method(),
            req.spec_host(),
            req.spec_path(),
            req.spec_need_sign(),
            *key,
            now,
            query@,
            json@,
        );
        assert(r@.headers =~= expected.headers);
    }
    r
}

/// Builds the HTTP request for `req` at the current time; `query` and
/// `json` are its parameters as a query string and as JSON.
pub fn req_to_http<Req: Rest>(req: &Req, key: &Key, query: &str, json: &str) -> (r: Request)
    requires
        req.spec_need_sign() ==> key.usable(),
    ensures
        exists|now: u64|
            r@ =~= #[trigger] standx_request(
                req.spec_method(),
                req.spec_host(),
                req.spec_path(),
                req.spec_need_sign(),
                *key,
                now,
                query@,
                json@,
            ),
{
    let now = now_millis();
    req_to_http_at(req, key, now, query, json)
}

/// Builds the HTTP request for `req` at the current time, as
/// `req_to_http`, when the key can sign what must be signed; `None` for a
/// request that must be signed with a key that cannot sign.
pub fn try_req_to_http<Req: Rest>(req: &Req, key: &Key, query: &str, json: &str) -> (r: Option<Request>)
    ensures
        r is None <==> (req.spec_need_sign() && !key.usable()),
        r matches Some(r) ==> exists|now: u64|
            r@ =~= #[trigger] standx_request(
                req.spec_method(),
                req.spec_host(),
                req.spec_path(),
                req.spec_need_sign(),
                *key,
                now,
                query@,
                json@,
            ),
{
    if req.need_sign() && !key.can_sign() {
        None
    } else {
        Some(req_to_http(req, key, query, json))
    }
}

} // verus!
