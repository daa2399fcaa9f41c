use asset_manager::app::{App, AssetImport, BuyImport, PurchaseData};
use asset_manager::asset::{Asset, AssetData, AssetType};
use asset_manager::errors::AppErrors;
use asset_manager::models::{AppEnv, Buy, FiatCurrency, Fund, PriceSheet};
use asset_manager::user::{User, UserSettings};

// built directly: the scrypt key derivation behind `User::new` is too
// slow in an unoptimized test build
fn test_user() -> User {
    User {
        name: "TESTUSER".to_string(),
        env: AppEnv::Dev,
        password_hash: "admin123".to_string(),
        app_state_hash: None,
    }
}

fn empty_sheet() -> PriceSheet {
    PriceSheet::new(None, None, None, None, None, None, 0)
}

fn btc_sheet(price: u64) -> PriceSheet {
    PriceSheet::new(None, None, Some(price), None, None, None, 0)
}

#[test]
fn create_and_load_state_hash() {
    let user = test_user();
    let mut app = App::new(user, btc_sheet(1_000_000));

    let fund_name = String::from("liberty");
    app.create_fund(fund_name.clone()).unwrap();

    let fund = app.get_fund(&fund_name).unwrap();

    let asset_type = AssetType::Bitcoin { address: Some("hash123".to_string()), sats: 100_000_000 };
    app.create_asset(&fund_name, asset_type, None).unwrap();

    let asset = app.get_asset(0).unwrap();

    println!("NICE: {:?}", asset);

    println!("USER: {:?}", app.owner());

    let asset_type = AssetType::Bitcoin { address: Some("hash456".to_string()), sats: 250_000 };
    app.create_asset(&fund_name, asset_type, None).unwrap();

    assert!(app.get_fund(&fund_name).unwrap() == fund);
    assert!(app.asset_count() == 2);
}

#[test]
fn duplicate_fund_is_refused() {
    let mut app = App::new(test_user(), empty_sheet());
    assert_eq!(app.create_fund("liberty".to_string()), Ok(()));
    assert_eq!(app.create_fund("liberty".to_string()), Err(AppErrors::DuplicateFund));
    assert_eq!(app.fund_count(), 1);
    assert!(app.has_fund("liberty"));
}

#[test]
fn fund_batch_is_atomic() {
    let mut app = App::new(test_user(), empty_sheet());
    let names = vec!["a".to_string(), "b".to_string(), "a".to_string()];
    assert_eq!(app.create_funds(names), Err(AppErrors::DuplicateFund));
    assert_eq!(app.fund_count(), 0);
    let names = vec!["a".to_string(), "b".to_string()];
    assert_eq!(app.create_funds(names), Ok(()));
    assert_eq!(app.fund_count(), 2);
    assert!(app.has_fund("a") && app.has_fund("b"));
}

#[test]
fn purchase_attaches_once() {
    let settings = UserSettings { fiat_currency: FiatCurrency::MXN };
    let at = AssetType::Bitcoin { address: None, sats: 1 };
    let mut asset = Asset::new(0, Fund::new("f".to_string()), at, settings);
    assert_eq!(asset.get_entrance_amount(), Err(AppErrors::MissingPurchase));
    assert_eq!(asset.purchase(1_000, 7_500, FiatCurrency::MXN), Ok(()));
    assert_eq!(asset.get_entrance_amount(), Ok(7_500));
    assert_eq!(
        asset.purchase(2_000, 9_999, FiatCurrency::MXN),
        Err(AppErrors::DuplicatePurchase)
    );
    assert_eq!(asset.get_entrance_amount(), Ok(7_500));
    assert_eq!(
        asset.buy.unwrap().get_transaction_amount_currency(),
        (7_500, FiatCurrency::MXN)
    );
}

#[test]
fn currency_mismatch_is_refused() {
    let settings = UserSettings { fiat_currency: FiatCurrency::MXN };
    let at = AssetType::Bitcoin { address: None, sats: 1 };
    let mut asset = Asset::new(0, Fund::new("f".to_string()), at, settings);
    assert_eq!(asset.purchase(1_000, 5_000, FiatCurrency::USD), Ok(()));
    assert_eq!(asset.get_entrance_amount(), Err(AppErrors::CurrencyMismatch));
    let buy = asset.buy.unwrap();
    assert_eq!(buy.get_entrance_amount(FiatCurrency::MXN), Err(AppErrors::CurrencyMismatch));
    assert_eq!(buy.get_entrance_amount(FiatCurrency::USD), Ok(5_000));
}

#[test]
fn unknown_transaction_kind_is_refused() {
    assert_eq!(
        Buy::new(0, "card", 10, FiatCurrency::MXN),
        Err(AppErrors::UnknownTransactionKind)
    );
    let b = Buy::new(5, "FIAT_CASH".to_lowercase().as_str(), 10, FiatCurrency::MXN).unwrap();
    assert_eq!(b.settled_at, 5);
}

#[test]
fn evaluate_reports_each_failure() {
    let settings = UserSettings { fiat_currency: FiatCurrency::MXN };
    let at = AssetType::Bitcoin { address: None, sats: 50_000_000 };
    let sheet = btc_sheet(1_000_000);
    let mut asset = Asset::new(3, Fund::new("f".to_string()), at, settings);
    assert_eq!(
        asset.evaluate_at(FiatCurrency::MXN, &sheet, 10_000),
        Err(AppErrors::MissingPurchase)
    );
    asset.purchase(5_000, 450_000, FiatCurrency::MXN).unwrap();
    assert_eq!(
        asset.evaluate_at(FiatCurrency::MXN, &sheet, 4_000),
        Err(AppErrors::FutureSettlement)
    );
    assert_eq!(
        asset.evaluate_at(FiatCurrency::USD, &sheet, 10_000),
        Err(AppErrors::CurrencyMismatch)
    );
    let ev = asset.evaluate_at(FiatCurrency::MXN, &sheet, 10_000).unwrap();
    assert_eq!(ev.asset_id, 3);
    assert_eq!(ev.millisec_since_purchase, 5_000);
    assert_eq!(ev.asset_type_str, "BTC");
    assert_eq!(ev.entrance_amount, 450_000);
    assert_eq!(ev.now_amount, 500_000);
    assert_eq!(ev.currency, FiatCurrency::MXN);
    // the clock-sampling entry point reports the same pinned fields
    let ev2 = asset.evaluate(FiatCurrency::MXN, &sheet).unwrap();
    assert_eq!(ev2.now_amount, 500_000);
    assert_eq!(ev2.entrance_amount, 450_000);
}

#[test]
fn market_price_needs_a_sheet() {
    let settings = UserSettings { fiat_currency: FiatCurrency::MXN };
    let at = AssetType::Bitcoin { address: None, sats: 50_000_000 };
    let asset = Asset::new(0, Fund::new("f".to_string()), at, settings);
    assert_eq!(asset.get_market_price(None), Err(AppErrors::MissingPriceField));
    let sheet = btc_sheet(1_000_000);
    let snap = asset.get_market_price(Some(&sheet)).unwrap();
    assert_eq!(snap.median, 500_000);
    assert_eq!(snap.currency, FiatCurrency::MXN);
}

#[test]
fn unknown_fund_is_refused() {
    let mut app = App::new(test_user(), empty_sheet());
    let at = AssetType::Bitcoin { address: None, sats: 1 };
    assert_eq!(
        app.create_asset(&"nowhere".to_string(), at, None),
        Err(AppErrors::UnknownFund)
    );
    assert_eq!(app.asset_count(), 0);
    assert_eq!(
        app.get_fund(&"nowhere".to_string()),
        Err(AppErrors::UnknownFund)
    );
}

#[test]
fn asset_ids_are_assigned_in_order() {
    let mut app = App::new(test_user(), empty_sheet());
    app.create_fund("f".to_string()).unwrap();
    let fund_name = "f".to_string();
    let id0 = app
        .create_asset(&fund_name, AssetType::Bitcoin { address: None, sats: 1 }, None)
        .unwrap();
    let id1 = app
        .create_asset(&fund_name, AssetType::Litecoin { address: None, lits: 2 }, None)
        .unwrap();
    assert_eq!((id0, id1), (0, 1));
    assert_eq!(app.get_asset(0).unwrap().id, 0);
    assert_eq!(app.get_asset(1).unwrap().id, 1);
    assert!(app.get_asset(2).is_none());
}

#[test]
fn import_update_and_dashboard_flow() {
    let mut app = App::new(test_user(), btc_sheet(1_000_000));
    app.create_funds(vec!["liberty".to_string()]).unwrap();
    let mut data = AssetData::default();
    data.sats = Some(50_000_000);
    let imports = vec![AssetImport {
        fund_name: "liberty".to_string(),
        type_tag: "Bitcoin".to_string(),
        data,
        buy: Some(BuyImport {
            settled_at: "2023-01-15".to_string(),
            amount: 450_000,
            currency: "mxn".to_string(),
        }),
    }];
    app.create_assets(&imports).unwrap();
    assert_eq!(app.asset_count(), 1);
    let asset = app.get_asset(0).unwrap();
    assert_eq!(asset.buy.as_ref().unwrap().settled_at, 1_673_787_600_000);

    app.update_market().unwrap();

    let rows = app.dashboard().unwrap();
    assert_eq!(rows.len(), 1);
    assert_eq!(rows[0].asset_id, 0);
    assert_eq!(rows[0].entrance_amount, 450_000);
    assert_eq!(rows[0].now_amount, 500_000);
    assert_eq!(rows[0].currency, FiatCurrency::MXN);
}

#[test]
fn import_batch_is_atomic() {
    let mut app = App::new(test_user(), btc_sheet(1_000_000));
    app.create_fund("liberty".to_string()).unwrap();
    let mut good = AssetData::default();
    good.sats = Some(1);
    let imports = vec![
        AssetImport {
            fund_name: "liberty".to_string(),
            type_tag: "bitcoin".to_string(),
            data: good,
            buy: None,
        },
        AssetImport {
            fund_name: "liberty".to_string(),
            type_tag: "tulips".to_string(),
            data: AssetData::default(),
            buy: None,
        },
    ];
    assert_eq!(app.create_assets(&imports), Err(AppErrors::UnknownAssetTag));
    assert_eq!(app.asset_count(), 0);
}

#[test]
fn import_rejects_bad_purchase_fields() {
    let mut app = App::new(test_user(), btc_sheet(1_000_000));
    app.create_fund("liberty".to_string()).unwrap();
    let mut data = AssetData::default();
    data.sats = Some(1);
    let imports = vec![AssetImport {
        fund_name: "liberty".to_string(),
        type_tag: "bitcoin".to_string(),
        data: data.clone(),
        buy: Some(BuyImport {
            settled_at: "15/01/2023".to_string(),
            amount: 1,
            currency: "mxn".to_string(),
        }),
    }];
    assert_eq!(app.create_assets(&imports), Err(AppErrors::MalformedDate));
    let imports = vec![AssetImport {
        fund_name: "liberty".to_string(),
        type_tag: "bitcoin".to_string(),
        data,
        buy: Some(BuyImport {
            settled_at: "2023-01-15".to_string(),
            amount: 1,
            currency: "EUR".to_string(),
        }),
    }];
    assert_eq!(app.create_assets(&imports), Err(AppErrors::UnknownCurrency));
    assert_eq!(app.asset_count(), 0);
}

#[test]
fn update_market_aborts_on_first_failure() {
    let mut app = App::new(test_user(), empty_sheet());
    app.create_fund("f".to_string()).unwrap();
    let fund_name = "f".to_string();
    app.create_asset(&fund_name, AssetType::Bitcoin { address: None, sats: 1 }, None)
        .unwrap();
    // the sheet has no bitcoin price, so the refresh aborts
    assert_eq!(app.update_market(), Err(AppErrors::MissingPriceField));
}

#[test]
fn purchase_via_creation_matches_direct_purchase() {
    let mut app = App::new(test_user(), btc_sheet(1_000_000));
    app.create_fund("f".to_string()).unwrap();
    let fund_name = "f".to_string();
    let pd = PurchaseData { settled_at: 9_000, amount: 123, currency: FiatCurrency::MXN };
    app.create_asset(
        &fund_name,
        AssetType::Bitcoin { address: None, sats: 1 },
        Some(pd),
    )
    .unwrap();
    let asset = app.get_asset(0).unwrap();
    let buy = asset.buy.as_ref().unwrap();
    assert_eq!(buy.settled_at, 9_000);
    assert_eq!(buy.get_transaction_amount_currency(), (123, FiatCurrency::MXN));
}

#[test]
fn user_identity_getters() {
    let user = test_user();
    assert_eq!(user.name(), "TESTUSER");
    assert_eq!(user.env(), AppEnv::Dev);
    assert!(user.app_state_hash.is_none());
}
