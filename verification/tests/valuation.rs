use asset_manager::asset::{AssetData, AssetType};
use asset_manager::errors::AppErrors;
use asset_manager::models::{AppEnv, FiatCurrency, MarketSnapshot, PriceSheet};
use asset_manager::now::Now;
use asset_manager::utils::proportional;

fn empty_data() -> AssetData {
    AssetData::default()
}

fn sheet(
    gold24: Option<u64>,
    gold21: Option<u64>,
    btc: Option<u64>,
    doge4: Option<u64>,
    ltc: Option<u64>,
    eth: Option<u64>,
) -> PriceSheet {
    PriceSheet::new(gold24, gold21, btc, doge4, ltc, eth, 0)
}

#[test]
fn proportional_exact_small() {
    assert_eq!(proportional(1_000_000, 50_000_000, 100_000_000), Ok(500_000));
    assert_eq!(proportional(10, 7, 3), Ok(23));
    assert_eq!(proportional(0, 12345, 17), Ok(0));
}

#[test]
fn proportional_huge_intermediate_no_overflow() {
    // the intermediate product is 2^200, far beyond 128 bits
    let a = 1u128 << 100;
    let n = 1u128 << 100;
    let d = 1u128 << 100;
    assert_eq!(proportional(a, n, d), Ok(1u128 << 100));
    // 2^100 * 2^100 / 2^64 = 2^136: computed exactly internally, but it
    // does not fit the 128-bit output, so it is reported, not truncated
    assert_eq!(
        proportional(1u128 << 100, 1u128 << 100, 1u128 << 64),
        Err(AppErrors::ArithmeticOverflow)
    );
    // maximal inputs divided back down stay exact
    assert_eq!(proportional(u128::MAX, u128::MAX, u128::MAX), Ok(u128::MAX));
}

#[test]
fn bitcoin_valuation_scenario() {
    let s = sheet(None, None, Some(1_000_000), None, None, None);
    let at = AssetType::Bitcoin { address: None, sats: 50_000_000 };
    let snap = at.naive_market_price_at(&s, 42, FiatCurrency::MXN).unwrap();
    assert_eq!(snap.median, 500_000);
    assert_eq!(snap.timestamp, 42);
    assert_eq!(snap.asset_type_str, "BTC");
    assert_eq!(snap.currency, FiatCurrency::MXN);
    assert_eq!(snap.source, None);
    assert_eq!(snap.top, None);
}

#[test]
fn gold_valuation_scenario() {
    let s = sheet(Some(1_200), None, None, None, None, None);
    let at = AssetType::Gold {
        presentation: "bar".to_string(),
        weight: Some("10".to_string()),
        purity: Some(9999),
        note: None,
    };
    let snap = at.naive_market_price_at(&s, 0, FiatCurrency::MXN).unwrap();
    assert_eq!(snap.median, 12_000);
    assert_eq!(snap.asset_type_str, "GOLD");
}

#[test]
fn gold_21k_uses_other_sheet_field() {
    let s = sheet(Some(1_200), Some(900), None, None, None, None);
    let at = AssetType::Gold {
        presentation: "coin".to_string(),
        weight: Some("3".to_string()),
        purity: Some(9000),
        note: None,
    };
    let snap = at.naive_market_price_at(&s, 0, FiatCurrency::MXN).unwrap();
    assert_eq!(snap.median, 2_700);
}

#[test]
fn unsupported_purity_fails() {
    let s = sheet(Some(1_200), Some(900), None, None, None, None);
    let at = AssetType::Gold {
        presentation: "bar".to_string(),
        weight: Some("10".to_string()),
        purity: Some(5000),
        note: None,
    };
    assert_eq!(
        at.naive_market_price_at(&s, 0, FiatCurrency::MXN),
        Err(AppErrors::UnsupportedPurity)
    );
}

#[test]
fn fractional_gold_weight_is_malformed() {
    let s = sheet(Some(1_200), None, None, None, None, None);
    let at = AssetType::Gold {
        presentation: "bar".to_string(),
        weight: Some("10.5".to_string()),
        purity: Some(9999),
        note: None,
    };
    assert_eq!(
        at.naive_market_price_at(&s, 0, FiatCurrency::MXN),
        Err(AppErrors::MalformedQuantity)
    );
}

#[test]
fn missing_price_sheet_field_fails() {
    let s = sheet(None, None, None, None, None, None);
    let at = AssetType::Bitcoin { address: None, sats: 1 };
    assert_eq!(
        at.naive_market_price_at(&s, 0, FiatCurrency::MXN),
        Err(AppErrors::MissingPriceField)
    );
}

#[test]
fn litecoin_ethereum_dogecoin_scales() {
    let s = sheet(None, None, None, Some(500), Some(7_000), Some(200_000));
    let ltc = AssetType::Litecoin { address: None, lits: 200_000_000 };
    assert_eq!(
        ltc.naive_market_price_at(&s, 0, FiatCurrency::MXN).unwrap().median,
        14_000
    );
    let eth = AssetType::Ethereum { address: None, wei: 1_000_000_000_000_000_000 };
    assert_eq!(
        eth.naive_market_price_at(&s, 0, FiatCurrency::MXN).unwrap().median,
        200_000
    );
    let doge = AssetType::Dogecoin { address: None, dogs: 10_000_000_000 };
    assert_eq!(
        doge.naive_market_price_at(&s, 0, FiatCurrency::MXN).unwrap().median,
        500
    );
}

#[test]
fn real_estate_placeholder_valuation() {
    let s = sheet(None, None, None, None, None, None);
    let at = AssetType::RealState { name: "casa".to_string(), deed_date: None };
    let snap = at.naive_market_price_at(&s, 0, FiatCurrency::MXN).unwrap();
    assert_eq!(snap.median, 2_000_000);
    assert_eq!(snap.asset_type_str, "REAL_STATE");
}

#[test]
fn oversized_median_is_reported() {
    let s = sheet(None, None, Some(u64::MAX), None, None, None);
    let at = AssetType::Bitcoin { address: None, sats: u128::MAX };
    assert_eq!(
        at.naive_market_price_at(&s, 0, FiatCurrency::MXN),
        Err(AppErrors::ArithmeticOverflow)
    );
}

#[test]
fn pricing_is_idempotent_up_to_timestamp() {
    let s = sheet(None, None, Some(1_000_000), None, None, None);
    let at = AssetType::Bitcoin { address: None, sats: 123_456_789 };
    let a = at.naive_market_price_at(&s, 1, FiatCurrency::MXN).unwrap();
    let b = at.naive_market_price_at(&s, 2, FiatCurrency::MXN).unwrap();
    assert_eq!(a.median, b.median);
    assert_eq!(a.asset_type_str, b.asset_type_str);
    assert_ne!(a.timestamp, b.timestamp);
}

#[test]
fn tag_round_trip_labels() {
    let mut d = empty_data();
    d.sats = Some(1);
    d.lits = Some(1);
    d.wei = Some(1);
    d.dogs = Some(1);
    d.presentation = Some("bar".to_string());
    d.name = Some("casa".to_string());
    assert_eq!(AssetType::new("bitcoin", d.clone()).unwrap().type_label(), "BTC");
    assert_eq!(AssetType::new("BitCoin", d.clone()).unwrap().type_label(), "BTC");
    assert_eq!(AssetType::new("litecoin", d.clone()).unwrap().type_label(), "LTC");
    assert_eq!(AssetType::new("ETHEREUM", d.clone()).unwrap().type_label(), "ETH");
    assert_eq!(AssetType::new("dogecoin", d.clone()).unwrap().type_label(), "DOGE");
    assert_eq!(AssetType::new("Gold", d.clone()).unwrap().type_label(), "GOLD");
    assert_eq!(AssetType::new("real_state", d.clone()).unwrap().type_label(), "REAL_STATE");
    assert_eq!(AssetType::new("tulips", d.clone()), Err(AppErrors::UnknownAssetTag));
}

#[test]
fn missing_class_field_is_rejected() {
    let d = empty_data();
    assert_eq!(AssetType::new("bitcoin", d.clone()), Err(AppErrors::MissingField));
    assert_eq!(AssetType::new("gold", d.clone()), Err(AppErrors::MissingField));
    assert_eq!(AssetType::new("real_state", d), Err(AppErrors::MissingField));
}

#[test]
fn currency_tokens_are_normalized() {
    assert_eq!(FiatCurrency::from_str("MXN"), Ok(FiatCurrency::MXN));
    assert_eq!(FiatCurrency::from_str(" mxn "), Ok(FiatCurrency::MXN));
    assert_eq!(FiatCurrency::from_str("usd"), Ok(FiatCurrency::USD));
    assert_eq!(FiatCurrency::from_str("U S D"), Ok(FiatCurrency::USD));
    assert_eq!(FiatCurrency::from_str("EUR"), Err(AppErrors::UnknownCurrency));
    assert_eq!(FiatCurrency::from_str(""), Err(AppErrors::UnknownCurrency));
}

#[test]
fn date_string_becomes_one_pm_utc() {
    // 2023-01-15 is 19372 days after the epoch; 13:00 UTC of that day
    // is 1_673_787_600 seconds
    let now = Now::new_from_datetime_str("2023-01-15", "%Y-%m-%d").unwrap();
    assert_eq!(now.to_epoch_millis(), 1_673_787_600_000);
    let epoch_day = Now::new_from_datetime_str("1970-01-01", "%Y-%m-%d").unwrap();
    assert_eq!(epoch_day.to_epoch_millis(), 13 * 3600 * 1000);
}

#[test]
fn bad_dates_are_rejected() {
    assert_eq!(
        Now::new_from_datetime_str("2023-13-40", "%Y-%m-%d"),
        Err(AppErrors::MalformedDate)
    );
    assert_eq!(
        Now::new_from_datetime_str("not a date", "%Y-%m-%d"),
        Err(AppErrors::MalformedDate)
    );
    // dates before the epoch do not fit the unsigned clock
    assert_eq!(
        Now::new_from_datetime_str("1969-12-31", "%Y-%m-%d"),
        Err(AppErrors::MalformedDate)
    );
    assert_eq!(
        Now::new_from_datetime_str("2023-01-15", "%d/%m/%Y"),
        Err(AppErrors::UnsupportedDateFormat)
    );
}

#[test]
fn now_conversions_and_arithmetic() {
    let n = Now::new_from_epoch_millis(5_000);
    assert_eq!(n.to_epoch_millis(), 5_000);
    assert_eq!(n.to_nanos(), 5_000_000_000);
    assert_eq!(n.increment_min(2).to_nanos(), 5_000_000_000 + 120_000_000_000);
    assert_eq!(n.increment_days(1).to_nanos(), 5_000_000_000 + 86_400_000_000_000);
    let later = n.increment_min(3);
    assert_eq!(later.reduce_min(3).to_nanos(), n.to_nanos());
    assert_eq!(Now::millis_between(10_000, 4_000), Ok(6_000));
    assert_eq!(Now::millis_between(4_000, 10_000), Err(AppErrors::FutureSettlement));
    // the sampled clock reads after any past instant
    assert!(Now::get_millis_since(0).is_some());
}

#[test]
fn snapshot_constructor_keeps_fields() {
    let snap = MarketSnapshot::new(
        7,
        "BTC".to_string(),
        Some("exchange".to_string()),
        FiatCurrency::USD,
        None,
        Some(10),
        Some(1),
        5,
    );
    assert_eq!(snap.timestamp, 7);
    assert_eq!(snap.asset_type_str, "BTC");
    assert_eq!(snap.source, Some("exchange".to_string()));
    assert_eq!(snap.currency, FiatCurrency::USD);
    assert_eq!(snap.top, Some(10));
    assert_eq!(snap.bottom, Some(1));
    assert_eq!(snap.median, 5);
}

#[test]
fn app_env_labels() {
    assert_eq!(AppEnv::Dev.label(), "dev");
    assert_eq!(AppEnv::Prod.label(), "prod");
}
