pub mod trading;

use crate::util::http::{header, Request, RequestView};
use crate::util::interface::{Method, Rest};
use vstd::prelude::*;

verus! {

/// The web session of a Toobit account.
#[derive(Debug, Clone)]
pub struct WebKey {
    pub user_id: String,
    pub au_token: String,
    pub c_token: String,
}

/// The host requests go to unless they name their own.
pub open spec fn default_host() -> Seq<char> {
    "https://bapi.toobit.com"@
}

/// The request that carries `req`, whose parameters are written as the
/// form `form`, to the Toobit web API: the form goes into the URL for `GET`
/// and `DELETE` and into the body otherwise; the content is a form; a web
/// session adds its cookie. The second part is the query pair that a
/// session adds to the URL.
pub open spec fn toobit_web_request(
    method: Method,
    host: Option<Seq<char>>,
    path: Seq<char>,
    form: Seq<char>,
    web_key: Option<WebKey>,
) -> (RequestView, Option<(Seq<char>, Seq<char>)>) {
    let base = match host {
        Some(h) => h,
        None => default_host(),
    };
    let in_query = method == Method::Get || method == Method::Delete;
    let content = seq![("content-type"@, "application/x-www-form-urlencoded"@)];
    (
        RequestView {
            method,
            url: if in_query {
                base + path + "?"@ + form
            } else {
                base + path
            },
            headers: match web_key {
                Some(k) => content + seq![
                    ("cookie"@, "user_id="@ + k.user_id@ + "; au_token="@ + k.au_token@),
                ],
                None => content,
            },
            body: if in_query {
                Seq::<char>::empty()
            } else {
                form
            },
        },
        match web_key {
            Some(k) => Some(("c_token"@, k.c_token@)),
            None => None,
        },
    )
}

/// What a Toobit web request carries: the form travels in the URL after a
/// `?` with an empty body exactly for `GET` and `DELETE`, and as the body
/// otherwise; the content is always a form; a web session adds its cookie
/// and its `c_token` query pair, and no session adds neither.
pub proof fn toobit_web_request_law(
    method: Method,
    host: Option<Seq<char>>,
    path: Seq<char>,
    form: Seq<char>,
    web_key: Option<WebKey>,
)
    ensures
        ({
            let (r, extra) = toobit_web_request(method, host, path, form, web_key);
            let base = if host is Some { host->0 } else { "https://bapi.toobit.com"@ };
            &&& r.method == method
            &&& (method == Method::Get || method == Method::Delete) ==> r.url == base + path + "?"@ + form
                && r.body.len() == 0
            &&& !(method == Method::Get || method == Method::Delete) ==> r.url == base + path && r.body == form
            &&& r.headers[0] == ("content-type"@, "application/x-www-form-urlencoded"@)
            &&& r.headers.len() == (if web_key is Some { 2int } else { 1int })
            &&& extra is Some <==> web_key is Some
            &&& web_key matches Some(k) ==> extra == Some(("c_token"@, k.c_token@)) && r.headers[1].1
                == "user_id="@ + k.user_id@ + "; au_token="@ + k.au_token@
        }),
{
}

/// Builds the HTTP request for `req`, whose parameters are written as the
/// form `form`, and the query pair that the web session adds to its URL.
pub fn req_to_http<Req: Rest>(req: &Req, web_key: Option<&WebKey>, form: &str) -> (r: (Request, Option<(String, String)>))
    ensures
        ({
            let expected = toobit_web_request(
                req.spec_method(),
                req.spec_host(),
                req.spec_path(),
                form@,
                match web_key {
                    Some(k) => Some(*k),
                    None => None,
                },
            );
            &&& r.0@ =~= expected.0
            &&& match r.1 {
                Some(p) => expected.1 == Some((p.0@, p.1@)),
                None => expected.1 is None,
            }
        }),
{
    let method = req.method();
    let mut url = match req.host() {
        Some(h) => String::from_str(h),
        None => String::from_str("https://bapi.toobit.com"),
    };
    let path = req.path();
    url.append(path.as_str());
    let body = if method.uses_query() {
        url.append("?");
        url.append(form);
        String::new()
    } else {
        String::from_str(form)
    };
    let mut headers: Vec<(String, String)> = Vec::new();
    headers.push(header("content-type", String::from_str("application/x-www-form-urlencoded")));
    let extra = match web_key {
        Some(k) => {
            let mut cookie = String::from_str("user_id=");
            cookie.append(k.user_id.as_str());
            cookie.append("; au_token=");
            cookie.append(k.au_token.as_str());
            headers.push(header("cookie", cookie));
            Some((String::from_str("c_token"), k.c_token.clone()))
        },
        None => None,
    };
    let r = Request { method, url, headers, body };
    proof {
        let expected = toobit_web_request(
            req.spec_method(),
            req.spec_host(),
            req.spec_path(),
            form@,
            match web_key {
                Some(k) => Some(*k),
                None => None,
            },
        );
        assert(r@.headers =~= expected.0.headers);
    }
    (r, extra)
}

} // verus!
