use exc::paradex::service::info::{funding_history_interval, select_tier};
use exc::paradex::service::trading::{order_history_query, order_state, pick_order};
use exc::standx::futures_api::types as sx_types;
use exc::standx::service::trading::place_order_request as standx_place_order_request;
use exc::toobit::service::info::{find_contract, index_price_symbol, open_after_status};
use exc::util::asset::Asset;
use exc::util::error::ExchangeError;
use exc::util::symbol::Symbol;
use exc::util::types::order::{OrderId, OrderSide, OrderStatus, OrderType};
use exc::weex::futures_api::types as wx_types;
use exc::weex::service::trading::{find_client_order, get_order_step, start_lookup, LookupAction, LookupState};
use exc::weex::futures_api::http::trading::PlaceOrderResponse as WxPlaceOrderResponse;
use exc::xt::futures_api::types as xt_types;
use exc::xt::service::trading::place_order_request as xt_place_order_request;
use exc::simu::service::trading::{place_order, read_order_id};
use exc::util::types::earn::{st_token, st_token_of_upper, StToken};
use rust_decimal::Decimal;

fn s(x: &str) -> String {
    x.to_string()
}

#[test]
fn standx_place_order_sell() {
    let r = standx_place_order_request(s("BTC-USD"), s("cid"), Decimal::new(-150, 2), Decimal::new(65000, 0), OrderType::Market);
    assert_eq!(r.symbol, "BTC-USD");
    assert_eq!(r.cl_ord_id, Some(s("cid")));
    assert_eq!(r.side, sx_types::OrderSide::Sell);
    assert!(!r.reduce_only);
    assert_eq!(r.order_type, sx_types::OrderType::Market);
    assert_eq!(r.time_in_force, sx_types::TimeInForce::Ioc);
    assert_eq!(r.qty, Decimal::new(150, 2));
    assert!(r.qty.is_sign_positive());
    assert_eq!(r.price, Decimal::new(65000, 0));
}

#[test]
fn standx_place_order_buy() {
    let r = standx_place_order_request(s("ETH-USD"), s("c2"), Decimal::new(3, 1), Decimal::new(25005, 1), OrderType::LimitMaker);
    assert_eq!(r.side, sx_types::OrderSide::Buy);
    assert_eq!(r.order_type, sx_types::OrderType::Limit);
    assert_eq!(r.time_in_force, sx_types::TimeInForce::Alo);
    assert_eq!(r.qty, Decimal::new(3, 1));
    assert_eq!(r.qty.to_string(), "0.3");
}

#[test]
fn xt_place_order() {
    let r = xt_place_order_request(
        s("btc_usdt"),
        s("id1"),
        Decimal::new(-7, 0),
        Decimal::new(123, 1),
        OrderType::FillOrKill,
        xt_types::PositionSide::Short,
    );
    assert_eq!(r.symbol, "btc_usdt");
    assert_eq!(r.client_order_id, Some(s("id1")));
    assert_eq!(r.order_side, OrderSide::Sell);
    assert_eq!(r.position_side, xt_types::PositionSide::Short);
    assert_eq!(r.order_type, xt_types::OrderType::Limit);
    assert_eq!(r.time_in_force, xt_types::TimeInForce::Fok);
    assert_eq!(r.orig_qty, Decimal::new(7, 0));
    assert_eq!(r.price, Decimal::new(123, 1));

    let r = xt_place_order_request(s("eth_usdt"), s("id2"), Decimal::new(2, 0), Decimal::new(1, 0), OrderType::Market, xt_types::PositionSide::Long);
    assert_eq!(r.order_side, OrderSide::Buy);
    assert_eq!(r.order_type, xt_types::OrderType::Market);
    assert_eq!(r.time_in_force, xt_types::TimeInForce::Ioc);
    assert_eq!(r.orig_qty, Decimal::new(2, 0));
}

#[test]
fn paradex_history_query() {
    let q = order_history_query(s("BTC-USD-PERP"), None);
    assert_eq!(q, vec![(s("market"), s("BTC-USD-PERP"))]);
    let q = order_history_query(s("BTC-USD-PERP"), Some(s("t-1")));
    assert_eq!(q, vec![(s("market"), s("BTC-USD-PERP")), (s("client_id"), s("t-1"))]);
}

#[test]
fn paradex_pick_order() {
    let ids = vec![s("a"), s("b"), s("a"), s("c")];
    assert_eq!(pick_order(&ids, &Some(s("a"))), Some(2));
    assert_eq!(pick_order(&ids, &Some(s("b"))), Some(1));
    assert_eq!(pick_order(&ids, &Some(s("z"))), None);
    assert_eq!(pick_order(&ids, &None), Some(3));
    assert_eq!(pick_order(&vec![], &None), None);
}

#[test]
fn paradex_order_state() {
    assert_eq!(order_state(true, 10, 0, true), (OrderStatus::Filled, OrderSide::Buy));
    assert_eq!(order_state(true, 10, 10, true), (OrderStatus::Canceled, OrderSide::Buy));
    assert_eq!(order_state(true, 10, 4, false), (OrderStatus::PartiallyCanceled, OrderSide::Sell));
    assert_eq!(order_state(false, 10, 10, false), (OrderStatus::New, OrderSide::Sell));
    assert_eq!(order_state(false, 10, 3, true), (OrderStatus::PartiallyFilled, OrderSide::Buy));
    assert_eq!(order_state(true, 0, 0, true), (OrderStatus::Canceled, OrderSide::Buy));
    assert_eq!(order_state(true, 5, 9, true), (OrderStatus::Canceled, OrderSide::Buy));
}

#[test]
fn paradex_select_tier() {
    let tiers = vec![(s("retail"), s("t1")), (s("pro"), s("t1")), (s("pro"), s("t2")), (s("retail"), s("t2"))];
    assert_eq!(select_tier(&tiers, true, &s("t2"), &s("t1")), Some(2));
    assert_eq!(select_tier(&tiers, false, &s("t2"), &s("t1")), Some(0));
    assert_eq!(select_tier(&tiers, false, &s("t1"), &s("t2")), Some(3));
    assert_eq!(select_tier(&tiers, true, &s("t9"), &s("t1")), None);
}

#[test]
fn paradex_funding_interval() {
    assert_eq!(funding_history_interval(&vec![]), Err(ExchangeError::OrderNotFound));
    assert_eq!(funding_history_interval(&vec![100]), Err(ExchangeError::OrderNotFound));
    assert_eq!(funding_history_interval(&vec![10_000, 5_000, 0]), Ok((5_000, 5_760)));
    assert_eq!(funding_history_interval(&vec![28_800_000, 0]), Ok((28_800_000, 1)));
    assert_eq!(funding_history_interval(&vec![3_600_001, 1]), Ok((3_600_000, 8)));
}

#[test]
fn toobit_contract_lookup() {
    let names = vec![s("BTC-SWAP-USDT"), s("ETH-SWAP-USDT"), s("BTC-SWAP-USDT")];
    assert_eq!(find_contract(&names, &s("BTC-SWAP-USDT")), Some(0));
    assert_eq!(find_contract(&names, &s("ETH-SWAP-USDT")), Some(1));
    assert_eq!(find_contract(&names, &s("SOL-SWAP-USDT")), None);
    assert!(open_after_status(true, &s("TRADING")));
    assert!(!open_after_status(true, &s("HALT")));
    assert!(!open_after_status(false, &s("TRADING")));
}

#[test]
fn weex_client_order_lookup() {
    let ids = vec![None, Some(s("x")), Some(s("y")), Some(s("x"))];
    assert_eq!(find_client_order(&ids, &s("x")), Some(1));
    assert_eq!(find_client_order(&ids, &s("y")), Some(2));
    assert_eq!(find_client_order(&ids, &s("z")), None);
    let mut id = OrderId::new(Symbol::derivative(Asset::btc(), Asset::usdt()));
    assert_eq!(start_lookup(&id), (LookupState::Done, LookupAction::NotFound));
    id.custom_order_id = Some(s("c"));
    assert_eq!(start_lookup(&id), (LookupState::AwaitOpen(s("c")), LookupAction::ListOpen));
    id.order_id = Some(s("o"));
    assert_eq!(start_lookup(&id), (LookupState::AwaitOrder, LookupAction::GetOrder(s("o"))));
}

#[test]
fn weex_get_order_steps() {
    let open = vec![Some(s("a")), None];
    let closed = vec![Some(s("b")), Some(s("c")), Some(s("c"))];
    let (st, act) = get_order_step(LookupState::AwaitOpen(s("c")), &open);
    assert_eq!((st.clone(), act), (LookupState::AwaitClosed(s("c")), LookupAction::ListClosed));
    assert_eq!(get_order_step(st, &closed), (LookupState::Done, LookupAction::Found(1)));
    assert_eq!(get_order_step(LookupState::AwaitOpen(s("a")), &open), (LookupState::Done, LookupAction::Found(0)));
    assert_eq!(get_order_step(LookupState::AwaitClosed(s("z")), &closed), (LookupState::Done, LookupAction::NotFound));
    assert_eq!(get_order_step(LookupState::AwaitOrder, &vec![None]), (LookupState::Done, LookupAction::Found(0)));
    assert_eq!(get_order_step(LookupState::AwaitOrder, &vec![]), (LookupState::Done, LookupAction::NotFound));
    assert_eq!(get_order_step(LookupState::Done, &closed), (LookupState::Done, LookupAction::NotFound));
}

#[test]
fn weex_place_order() {
    let r = exc::weex::service::trading::place_order_request(
        s("cmt_btcusdt"),
        s("cid"),
        Decimal::new(-25, 1),
        Decimal::new(60000, 0),
        OrderType::LimitMaker,
        wx_types::PositionSide::Long,
    );
    assert_eq!(r.symbol, "cmt_btcusdt");
    assert_eq!(r.client_id, Some(s("cid")));
    assert_eq!(r.side, wx_types::OrderSide::Sell);
    assert_eq!(r.trade_side, wx_types::PositionSide::Long);
    assert_eq!(r.kind, OrderType::LimitMaker);
    assert_eq!(r.qty, Decimal::new(25, 1));
    assert_eq!(r.price, Decimal::new(60000, 0));
    let r = exc::weex::service::trading::place_order_request(s("x"), s("c"), Decimal::new(1, 0), Decimal::new(2, 0), OrderType::Limit, wx_types::PositionSide::Short);
    assert_eq!(r.side, wx_types::OrderSide::Buy);
}

#[test]
fn placed_orders() {
    let mut id = OrderId::new(Symbol::derivative(Asset::btc(), Asset::usdt()));
    id.custom_order_id = Some(s("cid"));
    let ok = exc::weex::service::trading::placed_order(id.clone(), Ok(WxPlaceOrderResponse { order_id: s("77") })).unwrap();
    assert_eq!(ok.order_id, Some(s("77")));
    assert_eq!(ok.custom_order_id, Some(s("cid")));
    let (back, e) = exc::weex::service::trading::placed_order(id.clone(), Err(ExchangeError::Api(s("no")))).unwrap_err();
    assert_eq!(back.order_id, None);
    assert_eq!(e, ExchangeError::Api(s("no")));
    let ok = id.clone().placed(Ok(s("9"))).unwrap();
    assert_eq!(ok.order_id, Some(s("9")));
    let ok = exc::standx::service::trading::placed_order(id.clone(), Ok(exc::standx::futures_api::http::trading::PlaceOrderResponse {})).unwrap();
    assert_eq!(ok.order_id, None);
    assert_eq!(ok.custom_order_id, Some(s("cid")));
    assert!(exc::standx::service::trading::placed_order(id, Err(ExchangeError::OrderNotFound)).is_err());
}

#[test]
fn simu_order_id_reads_back() {
    let symbol = Symbol::derivative(Asset::btc(), Asset::usdt());
    let id = place_order(symbol, 42, &Decimal::new(-125, 2));
    assert_eq!(id.order_id.as_deref(), Some("42,-1.25"));
    assert_eq!(id.custom_order_id, None);
    assert_eq!(read_order_id(id.order_id.as_deref().unwrap()), (42, s("-1.25")));
    let id = place_order(Symbol::spot(Asset::eth(), Asset::usdt()), 0, &Decimal::new(3, 0));
    assert_eq!(id.order_id.as_deref(), Some("0,3"));
    assert_eq!(read_order_id("+17,2.5,extra"), (17, s("2.5")));
    assert_eq!(read_order_id("007,"), (7, s("")));
    assert_eq!(read_order_id("18446744073709551615,1"), (u64::MAX, s("1")));
}

#[test]
fn st_tokens() {
    assert_eq!(st_token("xaut"), Some(StToken::Xaut));
    assert_eq!(st_token("XAUt0"), Some(StToken::Xaut));
    assert_eq!(st_token("usoil"), Some(StToken::Oil));
    assert_eq!(st_token("wti"), Some(StToken::Oil));
    assert_eq!(st_token("Uso"), Some(StToken::Uso));
    assert_eq!(st_token("paxg"), Some(StToken::Paxg));
    assert_eq!(st_token("iauon"), Some(StToken::Iau));
    assert_eq!(st_token("SLV"), Some(StToken::Slv));
    assert_eq!(st_token("btc"), None);
    assert_eq!(st_token_of_upper(&s("cl")), None);
    assert_eq!(st_token_of_upper(&s("CL")), Some(StToken::Oil));
    assert_eq!(StToken::Uso.start_time(), 1776412800000);
    assert_eq!(StToken::Paxg.start_time(), 0);
}

#[test]
fn toobit_index_symbol() {
    let spot = Symbol::spot(Asset::btc(), Asset::usdt());
    assert!(index_price_symbol(&spot).is_none());
    let mut perp = Symbol::derivative(Asset::btc(), Asset::usdt());
    perp.precision = 3;
    let s = index_price_symbol(&perp).unwrap();
    assert!(s.is_spot());
    assert_eq!(s.to_string(), "S.BTC-USDT");
    assert_eq!(s.precision, 3);
}

#[test]
fn weex_symbol_id_parts() {
    let mut perp = Symbol::derivative(Asset::btc(), Asset::usdt());
    perp.prefix = s("1000");
    assert_eq!(exc::weex::symnol::symbol_id(&perp), "cmt_1000btcusdt");
    let spot = Symbol::spot(Asset::eth(), Asset::usdt());
    assert_eq!(exc::weex::symnol::symbol_id(&spot), "ETHUSDT_SPBL");
}

#[test]
fn xt_error_text_escapes() {
    let err: exc::xt::response::FullHttpResponse<u32> = exc::xt::response::FullHttpResponse {
        return_code: i64::MIN,
        error: Some(exc::xt::response::Error { code: s("a\"b"), msg: Some(s("line\n")), args: s("String(\"x\")") }),
        result: None,
    };
    assert_eq!(
        err.into_result(),
        Err(ExchangeError::Api(s("[-9223372036854775808]: Error { code: \"a\\\"b\", msg: Some(\"line\\n\"), args: String(\"x\") }")))
    );
}

#[test]
fn ascii_lowercase_text() {
    assert_eq!(exc::util::text::to_ascii_lowercase("BTC-Usdt_1É"), "btc-usdt_1É");
}
