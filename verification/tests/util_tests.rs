use exc::util::asset::{Asset, ParseAssetError};
use exc::util::interface::Method;
use exc::util::symbol::{Symbol, SymbolKind};
use exc::util::text::{eq_ignore_ascii_case, to_ascii_uppercase, u64_to_decimal};
use exc::util::types::order::{FuturesOpenType, OrderId, OrderSide, OrderStatus, OrderType};

#[test]
fn asset_parses_to_upper_case() {
    let a = Asset::try_from("btc").unwrap();
    assert_eq!(a.as_str(), "BTC");
    let a = Asset::from_str("uSdT").unwrap();
    assert_eq!(a.as_str(), "USDT");
}

#[test]
fn asset_refuses_empty_and_non_ascii() {
    assert_eq!(Asset::try_from("").unwrap_err(), ParseAssetError::Empty);
    assert_eq!(Asset::try_from("比特币").unwrap_err(), ParseAssetError::NonAscii);
    assert_eq!(Asset::try_from("eth€").unwrap_err(), ParseAssetError::NonAscii);
}

#[test]
fn asset_parse_is_a_normal_form() {
    let a = Asset::try_from("xaut0").unwrap();
    let b = Asset::try_from(a.as_str()).unwrap();
    assert_eq!(a.as_str(), b.as_str());
}

#[test]
fn asset_constants() {
    assert_eq!(Asset::usdt().as_str(), "USDT");
    assert_eq!(Asset::usdc().as_str(), "USDC");
    assert_eq!(Asset::usd().as_str(), "USD");
    assert_eq!(Asset::btc().as_str(), "BTC");
    assert_eq!(Asset::eth().as_str(), "ETH");
    assert_eq!(Asset::sep(), '-');
}

#[test]
fn asset_compares_ignoring_case() {
    let a = Asset::try_from("paxg").unwrap();
    assert!(a.eq_str("PAXG"));
    assert!(a.eq_str("paxg"));
    assert!(a.eq_str("PaXg"));
    assert!(!a.eq_str("PAX"));
    assert!(!a.eq_str("XAUT"));
    let c = a.clone();
    assert_eq!(c.as_str(), "PAXG");
}

#[test]
fn text_helpers() {
    assert_eq!(to_ascii_uppercase("aZ-é9"), "AZ-é9");
    assert!(eq_ignore_ascii_case("Usdt", "uSDT"));
    assert!(!eq_ignore_ascii_case("usdt", "usd"));
    assert!(!eq_ignore_ascii_case("é", "É"));
    assert_eq!(u64_to_decimal(0), "0");
    assert_eq!(u64_to_decimal(1776412800000), "1776412800000");
    assert_eq!(u64_to_decimal(u64::MAX), u64::MAX.to_string());
}

#[test]
fn order_codes() {
    assert_eq!(i8::from(OrderType::Market), 5);
    assert_eq!(OrderType::from(5i8), OrderType::Market);
    assert_eq!(OrderType::from(2i8), OrderType::LimitMaker);
    assert_eq!(OrderType::from(9i8), OrderType::Unknown);
    assert_eq!(OrderSide::from(3i8), OrderSide::Sell);
    assert_eq!(i8::from(OrderSide::CloseBuy), 4);
    assert_eq!(OrderSide::from(-1i8), OrderSide::Unknown);
    assert_eq!(OrderStatus::from(6i8), OrderStatus::Expired);
    assert_eq!(i8::from(OrderStatus::PartiallyFilled), 2);
    assert_eq!(FuturesOpenType::from(2i8), FuturesOpenType::Cross);
    assert_eq!(i8::from(FuturesOpenType::Isolated), 1);
    for n in -128i8..=127 {
        let t = OrderType::from(n);
        assert!(i8::from(t) == n || t == OrderType::Unknown);
        let s = OrderStatus::from(n);
        assert!(i8::from(s) == n || s == OrderStatus::Unknown);
    }
}

#[test]
fn order_status_finished() {
    assert!(OrderStatus::Filled.is_finished());
    assert!(OrderStatus::Canceled.is_finished());
    assert!(OrderStatus::PartiallyCanceled.is_finished());
    assert!(OrderStatus::Expired.is_finished());
    assert!(!OrderStatus::New.is_finished());
    assert!(!OrderStatus::PartiallyFilled.is_finished());
    assert!(!OrderStatus::Unknown.is_finished());
}

#[test]
fn order_type_display_names() {
    assert_eq!(OrderType::Limit.to_string(), "LIMIT");
    assert_eq!(OrderType::LimitMaker.to_string(), "LIMIT_MAKER");
    assert_eq!(OrderType::ImmediateOrCancel.to_string(), "IMMEDIATE_OR_CANCEL");
    assert_eq!(OrderType::FillOrKill.to_string(), "FILL_OR_KILL");
    assert_eq!(OrderType::Market.to_string(), "MARKET");
    assert_eq!(OrderType::Unknown.to_string(), "UNKNOWN");
}

#[test]
fn symbol_constructors_and_display() {
    let s = Symbol::derivative(Asset::try_from("btc").unwrap(), Asset::usdt());
    assert!(s.is_derivative());
    assert!(!s.is_spot());
    assert_eq!(s.kind, SymbolKind::Linear);
    assert_eq!(s.precision, 0);
    assert_eq!(s.precision_price, 2);
    assert!(s.can_open);
    assert_eq!(s.prefix, "");
    assert_eq!(s.to_string(), "F.BTC-USDT");
    let s = Symbol::spot(Asset::eth(), Asset::usdc());
    assert!(s.is_spot());
    assert_eq!(s.to_string(), "S.ETH-USDC");
    assert_eq!(Symbol::option(Asset::btc(), Asset::usd()).to_string(), "Q.BTC-USD");
    assert_eq!(Symbol::unknown(Asset::btc(), Asset::usd()).to_string(), "U.BTC-USD");
    let mut s = Symbol::unknown(Asset::btc(), Asset::usd());
    s.kind = SymbolKind::Inverse;
    assert_eq!(s.to_string(), "-F.BTC-USD");
}

#[test]
fn order_id_starts_empty() {
    let id = OrderId::new(Symbol::derivative(Asset::btc(), Asset::usdt()));
    assert!(id.order_id.is_none());
    assert!(id.custom_order_id.is_none());
    assert_eq!(id.symbol.to_string(), "F.BTC-USDT");
}

#[test]
fn method_query_placement() {
    assert!(Method::Get.uses_query());
    assert!(Method::Delete.uses_query());
    assert!(!Method::Post.uses_query());
    assert!(!Method::Put.uses_query());
}

#[test]
fn asset_refuses_delimiter() {
    assert!(matches!(exc::util::asset::Asset::try_from("BTC-USDT"), Err(exc::util::asset::ParseAssetError::ContainsSep)));
    assert!(matches!(exc::util::asset::Asset::try_from("-"), Err(exc::util::asset::ParseAssetError::ContainsSep)));
    assert!(matches!(exc::util::asset::Asset::try_from("é-"), Err(exc::util::asset::ParseAssetError::NonAscii)));
    assert!(matches!(exc::util::asset::Asset::try_from(""), Err(exc::util::asset::ParseAssetError::Empty)));
    assert_eq!(exc::util::asset::Asset::try_from("btc_usdt").unwrap().as_str(), "BTC_USDT");
}
