use base64::Engine;
use exc::paradex::service::info::next_funding_time;
use exc::paradex::service::trading::{cancel_target, order_instruction, CancelTarget, OrderInstruction};
use exc::standx::futures_api::http::req_to_http_at as standx_req_to_http_at;
use exc::standx::futures_api::http::{info as sx_info, trading as sx_trading};
use exc::standx::futures_api::types as sx_types;
use exc::standx::key::{Key, ParamsFormat};
use exc::toobit::futures_api::http::book::GetDepthRequest;
use exc::toobit::futures_api::http::info as tb_info;
use exc::toobit::futures_web::http::req_to_http as toobit_req_to_http;
use exc::toobit::futures_web::http::trading as tb_trading;
use exc::toobit::futures_web::http::WebKey;
use exc::toobit::service::info::{funding_rate_history_request, select_funding_history};
use exc::util::asset::Asset;
use exc::util::error::ExchangeError;
use exc::util::interface::{ApiKind, Method, Rest};
use exc::util::symbol::Symbol;
use exc::util::types::order::{OrderId, OrderSide, OrderStatus, OrderType};
use exc::weex::futures_api::http::{account as wx_account, info as wx_info, trading as wx_trading};
use exc::weex::symnol::symbol_id as weex_symbol_id;
use exc::xt::futures_api::http::{account as xt_account, info as xt_info, trading as xt_trading};
use exc::xt::futures_api::types as xt_types;
use exc::xt::response::{Error as XtError, FullHttpResponse};
use exc::xt::spot_api::http::account::GetEarnRequest;
use exc::xt::symnol::symbol_id as xt_symbol_id;

fn check<R: Rest>(r: &R, kind: ApiKind, method: Method, host: Option<&str>, path: &str, sign: bool) {
    assert_eq!(r.api_kind(), kind);
    assert_eq!(r.method(), method);
    assert_eq!(r.host(), host);
    assert_eq!(r.path(), path);
    assert_eq!(r.need_sign(), sign);
}

fn s(x: &str) -> String {
    x.to_string()
}

#[test]
fn standx_requests() {
    let fa = ApiKind::FuturesApi;
    check(&sx_info::GetInfoRequest { symbol: s("BTC-USD") }, fa, Method::Get, None, "/api/query_symbol_info", false);
    check(&sx_info::GetFundingRateRequest { symbol: s("BTC-USD") }, fa, Method::Get, None, "/api/query_symbol_market", false);
    check(
        &sx_info::GetFundingRateHistoryRequest { symbol: s("BTC-USD"), start_time: 1, end_time: 2 },
        fa,
        Method::Get,
        None,
        "/api/query_funding_rates",
        false,
    );
    check(&sx_trading::GetOrderRequest { cl_ord_id: None, order_id: Some(s("1")) }, fa, Method::Get, None, "/api/query_order", false);
    check(&sx_trading::CancelOrderRequest { cl_ord_id: None, order_id: Some(s("1")) }, fa, Method::Post, None, "/api/cancel_order", true);
    let place = sx_trading::PlaceOrderRequest {
        symbol: s("BTC-USD"),
        cl_ord_id: None,
        side: sx_types::OrderSide::Buy,
        reduce_only: false,
        order_type: sx_types::OrderType::Limit,
        time_in_force: sx_types::TimeInForce::Gtc,
        qty: rust_decimal::Decimal::new(1, 3),
        price: rust_decimal::Decimal::new(5000, 0),
    };
    check(&place, fa, Method::Post, None, "/api/new_order", true);
}

#[test]
fn toobit_requests() {
    let fa = ApiKind::FuturesApi;
    check(&GetDepthRequest { symbol: s("BTC-SWAP-USDT"), limit: 15 }, fa, Method::Get, None, "/quote/v1/depth", false);
    check(&tb_info::GetInfoRequest {}, fa, Method::Get, None, "/api/v1/exchangeInfo", false);
    check(&tb_info::GetIndexPriceRequest { symbol: s("BTCUSDT") }, fa, Method::Get, None, "/quote/v1/index", false);
    check(&tb_info::GetFundingRateRequest { symbol: s("x") }, fa, Method::Get, None, "/api/v1/futures/fundingRate", false);
    check(
        &tb_info::GetFundingRateHistoryRequest { symbol: s("x"), limit: 24 },
        fa,
        Method::Get,
        None,
        "/api/v1/futures/historyFundingRate",
        false,
    );
    check(
        &tb_trading::CancelOrderRequest { orig_client_order_id: Some(s("c")), order_id: None },
        ApiKind::FuturesWeb,
        Method::Post,
        None,
        "/capi/v1/futures/order/cancel",
        true,
    );
    let r = tb_trading::PlaceOrderResponse { order_id: s("7") };
    assert_eq!(r.order_id, "7");
}

#[test]
fn weex_requests() {
    let fa = ApiKind::FuturesApi;
    check(&wx_account::GetBalanceRequest {}, fa, Method::Get, None, "/capi/v2/account/assets", true);
    check(&wx_account::GetPositionRequest { symbol: s("cmt_btcusdt") }, fa, Method::Get, None, "/capi/v2/account/position/singlePosition", true);
    check(&wx_info::GetFundingRateRequest { symbol: s("x") }, fa, Method::Get, None, "/capi/v3/market/premiumIndex", false);
    check(
        &wx_info::GetFundingRateHistoryRequest { symbol: s("x"), start_time: 0, limit: 3 },
        fa,
        Method::Get,
        None,
        "/capi/v3/market/fundingRate",
        false,
    );
    let get = wx_trading::GetOrderRequest { client_id: None, order_id: Some(s("1")) };
    check(&get, fa, Method::Get, None, "/api/v1/futures/trade/get_order_detail", true);
    check(
        &wx_trading::CancelOrderRequest { symbol: s("x"), order_list: vec![get] },
        fa,
        Method::Post,
        None,
        "/api/v1/futures/trade/cancel_orders",
        true,
    );
}

#[test]
fn xt_requests() {
    let fa = ApiKind::FuturesApi;
    check(&xt_account::GetBalanceRequest { coin: s("usdt") }, fa, Method::Get, None, "/future/user/v1/compat/balance/list", true);
    check(&xt_account::GetPositionRequest { symbol: s("btc_usdt") }, fa, Method::Get, None, "/future/user/v1/position/list", true);
    check(&xt_info::GetInfoRequest { symbol: s("btc_usdt") }, fa, Method::Get, None, "/future/market/v1/public/symbol/detail", false);
    check(&xt_info::GetIndexPriceRequest { symbol: s("btc_usdt") }, fa, Method::Get, None, "/future/market/v1/public/q/symbol-index-price", false);
    check(
        &xt_info::GetFundingRateRequest { symbol: s("btc_usdt") },
        fa,
        Method::Get,
        Some("https://www.xt.com"),
        "/fapi/market/v1/public/q/funding-rate",
        false,
    );
    check(
        &xt_info::GetFundingRateHistoryRequest { symbol: s("btc_usdt"), limit: 48 },
        fa,
        Method::Get,
        None,
        "/future/market/v1/public/q/funding-rate-record",
        false,
    );
    check(&xt_trading::GetOrderRequest { client_order_id: None, order_id: None }, fa, Method::Get, None, "/future/trade/v1/order/detail", true);
    check(&xt_trading::CancelOrderRequest { client_order_id: None, order_id: None }, fa, Method::Post, None, "/future/trade/v1/order/cancel", true);
    let place = xt_trading::PlaceOrderRequest {
        symbol: s("btc_usdt"),
        client_order_id: Some(s("c")),
        order_side: OrderSide::Buy,
        position_side: xt_types::PositionSide::Long,
        order_type: xt_types::OrderType::Limit,
        time_in_force: xt_types::TimeInForce::Gtc,
        orig_qty: rust_decimal::Decimal::new(1, 0),
        price: rust_decimal::Decimal::new(1, 0),
    };
    check(&place, fa, Method::Post, None, "/future/trade/v1/order/create", true);
    check(&GetEarnRequest { scope: "ALL" }, ApiKind::SpotApi, Method::Get, None, "/v4/finance/balance", true);
}

#[test]
fn standx_conversions() {
    assert_eq!(OrderSide::from(sx_types::OrderSide::Buy), OrderSide::Buy);
    assert_eq!(OrderSide::from(sx_types::OrderSide::Sell), OrderSide::Sell);
    assert_eq!(sx_types::OrderType::from(OrderType::LimitMaker), sx_types::OrderType::Limit);
    assert_eq!(sx_types::OrderType::from(OrderType::Market), sx_types::OrderType::Market);
    assert_eq!(sx_types::OrderType::from(OrderType::Unknown), sx_types::OrderType::Unknown);
    assert_eq!(sx_types::OrderType::from(OrderType::FillOrKill), sx_types::OrderType::Limit);
    assert_eq!(sx_types::TimeInForce::from(OrderType::LimitMaker), sx_types::TimeInForce::Alo);
    assert_eq!(sx_types::TimeInForce::from(OrderType::FillOrKill), sx_types::TimeInForce::Ioc);
    assert_eq!(sx_types::TimeInForce::from(OrderType::Limit), sx_types::TimeInForce::Gtc);
    assert_eq!(OrderStatus::from(sx_types::OrderStatus::Untriggered), OrderStatus::New);
    assert_eq!(OrderStatus::from(sx_types::OrderStatus::Rejected), OrderStatus::Canceled);
    assert_eq!(OrderStatus::from(sx_types::OrderStatus::Filled), OrderStatus::Filled);
    assert!(OrderStatus::from(sx_types::OrderStatus::Rejected).is_finished());
    assert!(!OrderStatus::from(sx_types::OrderStatus::Open).is_finished());
    assert_eq!(i8::from(sx_types::OrderType::Market), 5);
    assert_eq!(sx_types::OrderType::from(1i8), sx_types::OrderType::Limit);
    assert_eq!(sx_types::OrderType::from(3i8), sx_types::OrderType::Unknown);
}

#[test]
fn xt_conversions() {
    assert_eq!(xt_types::TimeInForce::from(OrderType::FillOrKill), xt_types::TimeInForce::Fok);
    assert_eq!(xt_types::TimeInForce::from(OrderType::LimitMaker), xt_types::TimeInForce::Gtx);
    assert_eq!(xt_types::TimeInForce::from(OrderType::ImmediateOrCancel), xt_types::TimeInForce::Ioc);
    assert_eq!(xt_types::TimeInForce::from(OrderType::Unknown), xt_types::TimeInForce::Gtc);
    assert_eq!(xt_types::OrderType::from(OrderType::ImmediateOrCancel), xt_types::OrderType::Limit);
    assert_eq!(OrderStatus::from(xt_types::OrderStatus::Init), OrderStatus::New);
    assert_eq!(OrderStatus::from(xt_types::OrderStatus::PartFilled), OrderStatus::PartiallyFilled);
    assert_eq!(OrderStatus::from(xt_types::OrderStatus::PartiallyCanceled), OrderStatus::PartiallyCanceled);
    assert_eq!(OrderStatus::from(xt_types::OrderStatus::Canceled), OrderStatus::Canceled);
}

#[test]
fn symbol_ids() {
    let mut sym = Symbol::derivative(Asset::try_from("paxg").unwrap(), Asset::usdt());
    assert_eq!(weex_symbol_id(&sym), "cmt_paxgusdt");
    assert_eq!(xt_symbol_id(&sym), "paxg_usdt");
    sym.prefix = s("1000");
    assert_eq!(weex_symbol_id(&sym), "cmt_1000paxgusdt");
    assert_eq!(xt_symbol_id(&sym), "1000paxg_usdt");
    let spot = Symbol::spot(Asset::btc(), Asset::usdt());
    assert_eq!(weex_symbol_id(&spot), "BTCUSDT_SPBL");
}

fn seed_key() -> (Key, [u8; 32]) {
    let seed = [7u8; 32];
    let key = Key { secret: bs58::encode(seed).into_string(), jwt: s("token") };
    (key, seed)
}

fn expected_signature(seed: [u8; 32], msg: &str) -> String {
    let signer = ed25519_consensus::SigningKey::from(seed);
    base64::engine::general_purpose::STANDARD.encode(signer.sign(msg.as_bytes()).to_bytes())
}

#[test]
fn standx_signature_of_message() {
    let (key, seed) = seed_key();
    assert!(key.can_sign());
    let req = sx_trading::CancelOrderRequest { cl_ord_id: Some(s("abc")), order_id: None };
    let json = r#"{"cl_ord_id":"abc","order_id":null}"#;
    let signed = key.params_at(&req, 1700000000123).signed(&key, ParamsFormat::Json, ApiKind::FuturesApi, "cl_ord_id=abc", json);
    assert_eq!(signed.signing.id, 1700000000123);
    assert_eq!(signed.signing.timestamp, 1700000000123);
    let msg = format!("v1,1700000000123,1700000000123,{}", json);
    assert_eq!(signed.signature, expected_signature(seed, &msg));
    let common = key.params_at(&req, 9).signed(&key, ParamsFormat::Common, ApiKind::FuturesApi, "cl_ord_id=abc", json);
    assert_eq!(common.signature, expected_signature(seed, &format!("v1,9,9,{}", json)));
    let query = key.params_at(&req, 9).signed(&key, ParamsFormat::Urlencoded, ApiKind::FuturesApi, "cl_ord_id=abc", json);
    assert_eq!(query.signature, expected_signature(seed, "v1,9,9,cl_ord_id=abc"));
    let now = key.sign(&req, ParamsFormat::Json, ApiKind::FuturesApi, "", json);
    assert_eq!(now.signing.id, now.signing.timestamp);
}

#[test]
fn standx_signing_refused() {
    let (key, _) = seed_key();
    let req = sx_trading::CancelOrderRequest { cl_ord_id: None, order_id: None };
    assert!(key.params_at(&req, 1).try_signed(&key, ParamsFormat::Json, ApiKind::SpotApi, "", "{}").is_none());
    let bad = Key { secret: s("0OIl"), jwt: s("t") };
    assert!(!bad.can_sign());
    assert!(bad.params_at(&req, 1).try_signed(&bad, ParamsFormat::Json, ApiKind::FuturesApi, "", "{}").is_none());
    let short = Key { secret: bs58::encode([1u8; 31]).into_string(), jwt: s("t") };
    assert!(!short.can_sign());
    assert!(key.params_at(&req, 1).try_signed(&key, ParamsFormat::Json, ApiKind::FuturesApi, "", "{}").is_some());
}

#[test]
fn standx_http_requests() {
    let (key, seed) = seed_key();
    let get = sx_info::GetInfoRequest { symbol: s("BTC-USD") };
    let r = standx_req_to_http_at(&get, &key, 5, "symbol=BTC-USD", r#"{"symbol":"BTC-USD"}"#);
    assert_eq!(r.method, Method::Get);
    assert_eq!(r.url, "https://perps.standx.com/api/query_symbol_info?symbol=BTC-USD");
    assert_eq!(
        r.headers,
        vec![
            (s("Authorization"), s("Bearer token")),
            (s("content-type"), s("application/x-www-form-urlencoded")),
        ]
    );
    assert_eq!(r.body, "");
    let cancel = sx_trading::CancelOrderRequest { cl_ord_id: Some(s("abc")), order_id: None };
    let json = r#"{"cl_ord_id":"abc","order_id":null}"#;
    let r = standx_req_to_http_at(&cancel, &key, 42, "cl_ord_id=abc", json);
    assert_eq!(r.method, Method::Post);
    assert_eq!(r.url, "https://perps.standx.com/api/cancel_order");
    assert_eq!(
        r.headers,
        vec![
            (s("Authorization"), s("Bearer token")),
            (s("x-request-sign-version"), s("v1")),
            (s("x-request-id"), s("42")),
            (s("x-request-timestamp"), s("42")),
            (s("x-request-signature"), expected_signature(seed, &format!("v1,42,42,{}", json))),
            (s("content-type"), s("application/json")),
        ]
    );
    assert_eq!(r.body, json);
    let r = exc::standx::futures_api::http::req_to_http(&cancel, &key, "", json);
    assert_eq!(r.headers.len(), 6);
}

#[test]
fn standx_order_requests_from_ids() {
    let mut id = OrderId::new(Symbol::derivative(Asset::btc(), Asset::usd()));
    id.custom_order_id = Some(s("c1"));
    let r = exc::standx::service::trading::cancel_order_request(&id);
    assert_eq!(r.cl_ord_id, Some(s("c1")));
    assert_eq!(r.order_id, None);
    let r = exc::standx::service::trading::get_order_request(&id);
    assert_eq!(r.cl_ord_id, Some(s("c1")));
    id.order_id = Some(s("9"));
    let r = exc::xt::service::trading::cancel_order_request(&id);
    assert_eq!(r.order_id, Some(s("9")));
    assert_eq!(r.client_order_id, Some(s("c1")));
    let r = exc::xt::service::trading::get_order_request(&id);
    assert_eq!(r.order_id, Some(s("9")));
}

#[test]
fn toobit_http_requests() {
    let req = tb_trading::CancelOrderRequest { orig_client_order_id: Some(s("c")), order_id: None };
    let key = WebKey { user_id: s("u1"), au_token: s("au"), c_token: s("ct") };
    let (r, extra) = toobit_req_to_http(&req, Some(&key), "orig_client_order_id=c");
    assert_eq!(r.url, "https://bapi.toobit.com/capi/v1/futures/order/cancel");
    assert_eq!(r.body, "orig_client_order_id=c");
    assert_eq!(
        r.headers,
        vec![(s("content-type"), s("application/x-www-form-urlencoded")), (s("cookie"), s("user_id=u1; au_token=au"))]
    );
    assert_eq!(extra, Some((s("c_token"), s("ct"))));
    let depth = GetDepthRequest { symbol: s("BTC-SWAP-USDT"), limit: 15 };
    let (r, extra) = toobit_req_to_http(&depth, None, "symbol=BTC-SWAP-USDT&limit=15");
    assert_eq!(r.url, "https://bapi.toobit.com/quote/v1/depth?symbol=BTC-SWAP-USDT&limit=15");
    assert_eq!(r.body, "");
    assert_eq!(r.headers.len(), 1);
    assert_eq!(extra, None);
}

#[test]
fn toobit_funding_history() {
    let r = funding_rate_history_request(s("BTC-SWAP-USDT"), 2).unwrap();
    assert_eq!(r.limit, 48);
    assert_eq!(r.symbol, "BTC-SWAP-USDT");
    match funding_rate_history_request(s("x"), 6) {
        Err(ExchangeError::Forbidden(m)) => assert_eq!(m, "day max 5"),
        _ => panic!("six days must be refused"),
    }
    let times = vec![300, 200, 100, 50];
    let (idx, interval) = select_funding_history(&times, 90).unwrap();
    assert_eq!(idx, vec![0, 1, 2]);
    assert_eq!(interval, 100);
    assert_eq!(select_funding_history(&times, 250), Err(ExchangeError::OrderNotFound));
    assert_eq!(select_funding_history(&vec![], 0), Err(ExchangeError::OrderNotFound));
}

#[test]
fn xt_response_results() {
    let ok: FullHttpResponse<u32> = FullHttpResponse { return_code: 0, error: None, result: Some(5) };
    assert_eq!(ok.into_result(), Ok(5));
    let ok: FullHttpResponse<u32> = FullHttpResponse { return_code: 200, error: None, result: Some(6) };
    assert_eq!(ok.into_result(), Ok(6));
    let empty: FullHttpResponse<u32> = FullHttpResponse { return_code: 0, error: None, result: None };
    assert_eq!(empty.into_result(), Err(ExchangeError::UnexpectedResponseType(s("None"))));
    let err: FullHttpResponse<u32> = FullHttpResponse {
        return_code: 1,
        error: Some(XtError { code: s("invalid_symbol"), msg: Some(s("bad")), args: s("Null") }),
        result: Some(1),
    };
    assert_eq!(
        err.into_result(),
        Err(ExchangeError::Api(s("[1]: Error { code: \"invalid_symbol\", msg: Some(\"bad\"), args: Null }")))
    );
    let err: FullHttpResponse<u32> = FullHttpResponse { return_code: -1, error: None, result: None };
    assert_eq!(err.into_result(), Err(ExchangeError::Api(s("[-1]: Error { code: \"\", msg: None, args: Null }"))));
}

#[test]
fn paradex_decisions() {
    assert_eq!(order_instruction(OrderType::Limit), OrderInstruction::Gtc);
    assert_eq!(order_instruction(OrderType::Unknown), OrderInstruction::Gtc);
    assert_eq!(order_instruction(OrderType::LimitMaker), OrderInstruction::PostOnly);
    assert_eq!(order_instruction(OrderType::Market), OrderInstruction::Ioc);
    assert_eq!(order_instruction(OrderType::FillOrKill), OrderInstruction::Ioc);
    let mut id = OrderId::new(Symbol::derivative(Asset::eth(), Asset::usd()));
    assert_eq!(cancel_target(&id), Err(ExchangeError::OrderNotFound));
    id.order_id = Some(s("o1"));
    assert_eq!(cancel_target(&id), Ok(CancelTarget::OrderId(s("o1"))));
    id.custom_order_id = Some(s("c1"));
    assert_eq!(cancel_target(&id), Ok(CancelTarget::ClientId(s("c1"))));
    assert_eq!(next_funding_time(0), 5000);
    assert_eq!(next_funding_time(4999), 5000);
    assert_eq!(next_funding_time(5000), 10000);
    assert_eq!(next_funding_time(1700000001234), 1700000005000);
}
