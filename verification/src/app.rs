//! The portfolio aggregate: owns the funds, the assets, the active
//! price sheet and the latest snapshots, assigns identifiers, and
//! orchestrates bulk import, market refresh and evaluation.

use std::collections::HashMap;
use vstd::prelude::*;
use crate::asset::{
    asset_type_of, evaluation_matches, snapshot_matches, spec_evaluate_err, spec_price_err, Asset,
    AssetData, AssetEvaluation, AssetType,
};
use crate::errors::AppErrors;
use crate::models::{spec_currency_of, Buy, FiatCurrency, Fund, MarketSnapshot, PriceSheet};
use crate::now::{epoch_millis_of_date, Now};
use crate::transaction::Transaction;
use crate::types::{AssetId, EpochMillis, FundName};
use crate::user::{User, UserSettings};
use crate::utils::str_eq;

verus! {

broadcast use vstd::std_specs::hash::group_hash_axioms;

/// The plain fields of a purchase to attach when an asset is created.
#[derive(Debug, Clone, Copy, PartialEq)]
pub struct PurchaseData {
    pub settled_at: EpochMillis,
    pub amount: u128,
    pub currency: FiatCurrency,
}

/// The raw purchase fields of one import record: a year-month-day
/// settlement date, the amount in minor units, and a currency token.
#[derive(Debug, Clone, PartialEq)]
pub struct BuyImport {
    pub settled_at: String,
    pub amount: u128,
    pub currency: String,
}

/// One record of the import document, with its fields already lifted
/// out: the owning fund's name, the class tag and data, and the raw
/// purchase fields if a purchase was recorded.
#[derive(Debug, Clone, PartialEq)]
pub struct AssetImport {
    pub fund_name: FundName,
    pub type_tag: String,
    pub data: AssetData,
    pub buy: Option<BuyImport>,
}

/// The purchase record plain purchase fields denote.
pub open spec fn spec_buy_of(p: Option<PurchaseData>) -> Option<Buy> {
    match p {
        None => None,
        Some(pd) => Some(
            Buy {
                transaction: Transaction::FiatCash { amount: pd.amount, currency: pd.currency },
                settled_at: pd.settled_at,
            },
        ),
    }
}

/// The purchase data raw import fields denote: the date string read as
/// 13:00 UTC of that day, the currency token parsed.
pub open spec fn spec_purchase_of_import(b: BuyImport) -> Result<PurchaseData, AppErrors> {
    match epoch_millis_of_date(b.settled_at@) {
        None => Err(AppErrors::MalformedDate),
        Some(ms) => {
            if !(0 <= ms && ms * 1_000_000 <= u64::MAX) {
                Err(AppErrors::MalformedDate)
            } else {
                match spec_currency_of(b.currency@) {
                    Err(e) => Err(e),
                    Ok(c) => Ok(
                        PurchaseData { settled_at: ms as u64, amount: b.amount, currency: c },
                    ),
                }
            }
        },
    }
}

/// Whether a fund with the given name is present.
pub open spec fn has_fund_named(funds: Seq<Fund>, name: Seq<char>) -> bool {
    exists|i: int| 0 <= i < funds.len() && #[trigger] funds[i].name@ == name
}

/// Whether every fund name occurs once.
pub open spec fn fund_names_unique(funds: Seq<Fund>) -> bool {
    forall|i: int, j: int|
        0 <= i < j < funds.len() ==> #[trigger] funds[i].name@ != #[trigger] funds[j].name@
}

/// Whether a batch of fund names can be created atomically: none is
/// taken and no two are the same.
pub open spec fn names_fresh_and_distinct(funds: Seq<Fund>, names: Seq<String>) -> bool {
    &&& forall|i: int| 0 <= i < names.len() ==> !has_fund_named(funds, #[trigger] names[i]@)
    &&& forall|i: int, j: int|
        0 <= i < j < names.len() ==> #[trigger] names[i]@ != #[trigger] names[j]@
}

/// What the asset built for one import record holds: the assigned id,
/// the resolved fund, the denoted asset type and purchase record, no
/// sale, and the owner's settings.
pub open spec fn import_converts(
    imp: AssetImport,
    funds: Seq<Fund>,
    settings: UserSettings,
    id: AssetId,
    a: Asset,
) -> bool {
    &&& a.id == id
    &&& funds.contains(a.fund) && a.fund.name@ == imp.fund_name@
    &&& asset_type_of(imp.type_tag@, imp.data) == Ok::<AssetType, AppErrors>(a.asset_type)
    &&& match imp.buy {
        None => a.buy is None,
        Some(b) => spec_purchase_of_import(b) matches Ok(pd) && a.buy == spec_buy_of(Some(pd)),
    }
    &&& a.sell is None
    &&& a.owner_settings == settings
}

/// The first failure converting one import record would hit: an
/// unknown fund, a bad class tag or description, then bad purchase
/// fields.
pub open spec fn spec_import_err(imp: AssetImport, funds: Seq<Fund>) -> Option<AppErrors> {
    if !has_fund_named(funds, imp.fund_name@) {
        Some(AppErrors::UnknownFund)
    } else {
        match asset_type_of(imp.type_tag@, imp.data) {
            Err(e) => Some(e),
            Ok(_) => match imp.buy {
                None => None,
                Some(b) => match spec_purchase_of_import(b) {
                    Err(e) => Some(e),
                    Ok(_) => None,
                },
            },
        }
    }
}

/// Whether `evs` is, row for row, the evaluation of `assets` at `now`.
pub open spec fn all_evaluations_match(
    assets: Seq<Asset>,
    currency: FiatCurrency,
    sheet: PriceSheet,
    now: EpochMillis,
    evs: Seq<AssetEvaluation>,
) -> bool {
    &&& evs.len() == assets.len()
    &&& forall|i: int|
        0 <= i < assets.len() ==> evaluation_matches(#[trigger] assets[i], currency, sheet, now, evs[i])
}

/// Whether `e` is the first failure evaluating the assets at `now`
/// would hit, in creation order.
pub open spec fn first_evaluation_err(
    assets: Seq<Asset>,
    currency: FiatCurrency,
    sheet: PriceSheet,
    now: EpochMillis,
    e: AppErrors,
) -> bool {
    exists|i: int|
        0 <= i < assets.len() && spec_evaluate_err(#[trigger] assets[i], currency, sheet, now)
            == Some(e) && (forall|k: int|
            0 <= k < i ==> spec_evaluate_err(#[trigger] assets[k], currency, sheet, now) is None)
}

/// Converts the raw purchase fields of an import record.
fn import_purchase(b: &BuyImport) -> (r: Result<PurchaseData, AppErrors>)
    ensures
        r == spec_purchase_of_import(*b),
{
    let now = match Now::new_from_datetime_str(b.settled_at.as_str(), "%Y-%m-%d") {
        Ok(n) => n,
        Err(_) => {
            return Err(AppErrors::MalformedDate);
        },
    };
    let settled_at = now.to_epoch_millis();
    proof {
        let ms = epoch_millis_of_date(b.settled_at@)->Some_0;
        vstd::arithmetic::div_mod::lemma_div_multiples_vanish(ms as int, 1_000_000);
    }
    match FiatCurrency::from_str(b.currency.as_str()) {
        Ok(c) => Ok(PurchaseData { settled_at, amount: b.amount, currency: c }),
        Err(e) => Err(e),
    }
}

/// Finds the position of the fund with the given name.
fn find_fund_index(funds: &Vec<Fund>, name: &str) -> (r: Option<usize>)
    ensures
        match r {
            Some(i) => i < funds@.len() && funds@[i as int].name@ == name@,
            None => !has_fund_named(funds@, name@),
        },
{
    let mut i: usize = 0;
    while i < funds.len()
        invariant
            i <= funds@.len(),
            forall|j: int| 0 <= j < i ==> #[trigger] funds@[j].name@ != name@,
        decreases funds@.len() - i,
    {
        if str_eq(funds[i].name.as_str(), name) {
            return Some(i);
        }
        i = i + 1;
    }
    None
}

/// The portfolio aggregate. It alone mutates the fund list, the asset
/// list and the id counter.
#[derive(Debug)]
pub struct App {
    owner: User,
    user_settings: UserSettings,
    next_asset_id: AssetId,
    funds: Vec<Fund>,
    assets: Vec<Asset>,
    price_sheet: PriceSheet,
    latest_prices: HashMap<AssetId, MarketSnapshot>,
}

impl App {
    /// The funds, in creation order.
    pub closed spec fn spec_funds(&self) -> Seq<Fund> {
        self.funds@
    }

    /// The assets, in creation order.
    pub closed spec fn spec_assets(&self) -> Seq<Asset> {
        self.assets@
    }

    /// The identifier the next created asset will get.
    pub closed spec fn spec_next_asset_id(&self) -> AssetId {
        self.next_asset_id
    }

    /// The active price sheet.
    pub closed spec fn spec_price_sheet(&self) -> PriceSheet {
        self.price_sheet
    }

    /// The owner's settings.
    pub closed spec fn spec_settings(&self) -> UserSettings {
        self.user_settings
    }

    /// The owner.
    pub closed spec fn spec_owner(&self) -> User {
        self.owner
    }

    /// The most recent snapshot recorded for each asset id.
    pub closed spec fn spec_latest_prices(&self) -> Map<AssetId, MarketSnapshot> {
        self.latest_prices@
    }

    /// Everything but the asset list, the id counter and the snapshot
    /// map is as it was.
    pub open spec fn same_but_assets(&self, other: &App) -> bool {
        &&& self.spec_funds() == other.spec_funds()
        &&& self.spec_price_sheet() == other.spec_price_sheet()
        &&& self.spec_settings() == other.spec_settings()
        &&& self.spec_owner() == other.spec_owner()
    }

    /// Well-formedness: fund names are unique, each asset's id is its
    /// position in the list, and the counter is the number of assets.
    pub open spec fn wf(&self) -> bool {
        &&& fund_names_unique(self.spec_funds())
        &&& self.spec_next_asset_id() == self.spec_assets().len()
        &&& forall|i: int|
            0 <= i < self.spec_assets().len() ==> #[trigger] self.spec_assets()[i].id == i
    }

    /// A fresh portfolio for an owner, holding the given price sheet
    /// and default settings, with no funds, assets or snapshots yet.
    pub fn new(owner: User, price_sheet: PriceSheet) -> (r: App)
        ensures
            r.wf(),
            r.spec_owner() == owner,
            r.spec_settings() == (UserSettings { fiat_currency: FiatCurrency::MXN }),
            r.spec_next_asset_id() == 0,
            r.spec_funds() == Seq::<Fund>::empty(),
            r.spec_assets() == Seq::<Asset>::empty(),
            r.spec_price_sheet() == price_sheet,
            r.spec_latest_prices() == Map::<AssetId, MarketSnapshot>::empty(),
    {
        let r = App {
            owner,
            user_settings: UserSettings::default(),
            next_asset_id: 0,
            funds: Vec::new(),
            assets: Vec::new(),
            price_sheet,
            latest_prices: HashMap::new(),
        };
        proof {
            assert(r.spec_funds() =~= Seq::<Fund>::empty());
            assert(r.spec_assets() =~= Seq::<Asset>::empty());
        }
        r
    }

    /// Looks a fund up by name.
    pub fn internal_get_fund(&self, name: &FundName) -> (r: Result<Fund, AppErrors>)
        ensures
            match r {
                Ok(f) => has_fund_named(self.spec_funds(), name@) && f.name@ == name@
                    && self.spec_funds().contains(f),
                Err(e) => e == AppErrors::UnknownFund && !has_fund_named(self.spec_funds(), name@),
            },
    {
        match find_fund_index(&self.funds, name.as_str()) {
            Some(i) => {
                let f = &self.funds[i];
                let copy = Fund {
                    name: f.name.clone(),
                    location: match &f.location {
                        Some(l) => Some(l.clone()),
                        None => None,
                    },
                };
                proof {
                    assert(copy == self.spec_funds()[i as int]);
                }
                Ok(copy)
            },
            None => Err(AppErrors::UnknownFund),
        }
    }

    /// Looks a fund up by name.
    pub fn get_fund(&self, name: &FundName) -> (r: Result<Fund, AppErrors>)
        ensures
            match r {
                Ok(f) => has_fund_named(self.spec_funds(), name@) && f.name@ == name@
                    && self.spec_funds().contains(f),
                Err(e) => e == AppErrors::UnknownFund && !has_fund_named(self.spec_funds(), name@),
            },
    {
        self.internal_get_fund(name)
    }

    /// Whether a fund with the given name exists.
    pub fn has_fund(&self, name: &str) -> (r: bool)
        ensures
            r == has_fund_named(self.spec_funds(), name@),
    {
        find_fund_index(&self.funds, name).is_some()
    }

    /// How many funds exist.
    pub fn fund_count(&self) -> (r: usize)
        ensures
            r == self.spec_funds().len(),
    {
        self.funds.len()
    }

    /// How many assets exist.
    pub fn asset_count(&self) -> (r: usize)
        ensures
            r == self.spec_assets().len(),
    {
        self.assets.len()
    }

    /// The asset at a position in creation order.
    pub fn get_asset(&self, idx: usize) -> (r: Option<&Asset>)
        ensures
            idx < self.spec_assets().len() ==> (r matches Some(a) && *a == self.spec_assets()[idx as int]),
            idx >= self.spec_assets().len() ==> r is None,
    {
        if idx < self.assets.len() {
            Some(&self.assets[idx])
        } else {
            None
        }
    }

    /// The owner this portfolio belongs to.
    pub fn owner(&self) -> (r: &User)
        ensures
            *r == self.spec_owner(),
    {
        &self.owner
    }

    /// Creates a fund; a taken name is refused and nothing changes.
    pub fn create_fund(&mut self, name: FundName) -> (r: Result<(), AppErrors>)
        requires
            old(self).wf(),
        ensures
            final(self).wf(),
            final(self).spec_assets() == old(self).spec_assets(),
            final(self).spec_next_asset_id() == old(self).spec_next_asset_id(),
            final(self).spec_price_sheet() == old(self).spec_price_sheet(),
            final(self).spec_settings() == old(self).spec_settings(),
            final(self).spec_owner() == old(self).spec_owner(),
            final(self).spec_latest_prices() == old(self).spec_latest_prices(),
            has_fund_named(old(self).spec_funds(), name@) ==> r == Err::<(), AppErrors>(
                AppErrors::DuplicateFund,
            ) && final(self).spec_funds() == old(self).spec_funds(),
            !has_fund_named(old(self).spec_funds(), name@) ==> r == Ok::<(), AppErrors>(())
                && final(self).spec_funds() == old(self).spec_funds().push(
                Fund { name, location: None },
            ),
    {
        if find_fund_index(&self.funds, name.as_str()).is_some() {
            return Err(AppErrors::DuplicateFund);
        }
        self.funds.push(Fund::new(name));
        Ok(())
    }

    /// Creates a batch of funds atomically: if any name is already
    /// taken or repeated in the batch, nothing is created.
    pub fn create_funds(&mut self, names: Vec<FundName>) -> (r: Result<(), AppErrors>)
        requires
            old(self).wf(),
        ensures
            final(self).wf(),
            final(self).spec_assets() == old(self).spec_assets(),
            final(self).spec_next_asset_id() == old(self).spec_next_asset_id(),
            final(self).spec_price_sheet() == old(self).spec_price_sheet(),
            final(self).spec_settings() == old(self).spec_settings(),
            final(self).spec_owner() == old(self).spec_owner(),
            final(self).spec_latest_prices() == old(self).spec_latest_prices(),
            names_fresh_and_distinct(old(self).spec_funds(), names@) ==> r == Ok::<(), AppErrors>(
                (),
            ) && final(self).spec_funds() == old(self).spec_funds() + names@.map_values(
                |n: FundName| Fund { name: n, location: None },
            ),
            !names_fresh_and_distinct(old(self).spec_funds(), names@) ==> r == Err::<
                (),
                AppErrors,
            >(AppErrors::DuplicateFund) && final(self).spec_funds() == old(self).spec_funds(),
    {
        let mut i: usize = 0;
        while i < names.len()
            invariant
                old(self).wf(),
                *self == *old(self),
                i <= names@.len(),
                forall|k: int|
                    0 <= k < i ==> !has_fund_named(self.spec_funds(), #[trigger] names@[k]@),
                forall|k: int, l: int| 0 <= k < l < i ==> #[trigger] names@[k]@ != #[trigger] names@[l]@,
            decreases names@.len() - i,
        {
            if find_fund_index(&self.funds, names[i].as_str()).is_some() {
                return Err(AppErrors::DuplicateFund);
            }
            let mut j: usize = 0;
            while j < i
                invariant
                    old(self).wf(),
                    *self == *old(self),
                    j <= i < names@.len(),
                    forall|k: int| 0 <= k < j ==> #[trigger] names@[k]@ != names@[i as int]@,
                decreases i - j,
            {
                if str_eq(names[j].as_str(), names[i].as_str()) {
                    return Err(AppErrors::DuplicateFund);
                }
                j = j + 1;
            }
            i = i + 1;
        }
        assert(names_fresh_and_distinct(self.spec_funds(), names@));
        let mut i: usize = 0;
        while i < names.len()
            invariant
                i <= names@.len(),
                names_fresh_and_distinct(old(self).spec_funds(), names@),
                old(self).wf(),
                self.spec_funds() == old(self).spec_funds() + names@.subrange(
                    0,
                    i as int,
                ).map_values(|n: FundName| Fund { name: n, location: None }),
                self.spec_assets() == old(self).spec_assets(),
                self.spec_next_asset_id() == old(self).spec_next_asset_id(),
                self.spec_price_sheet() == old(self).spec_price_sheet(),
                self.spec_settings() == old(self).spec_settings(),
                self.spec_owner() == old(self).spec_owner(),
                self.spec_latest_prices() == old(self).spec_latest_prices(),
            decreases names@.len() - i,
        {
            self.funds.push(Fund::new(names[i].clone()));
            proof {
                let f = |n: FundName| Fund { name: n, location: None };
                assert(names@.subrange(0, i + 1).map_values(f) =~= names@.subrange(
                    0,
                    i as int,
                ).map_values(f).push(Fund { name: names@[i as int], location: None }));
            }
            i = i + 1;
        }
        proof {
            assert(names@.subrange(0, names@.len() as int) =~= names@);
            let f = |n: FundName| Fund { name: n, location: None };
            let all = old(self).spec_funds() + names@.map_values(f);
            assert forall|i: int, j: int| 0 <= i < j < all.len() implies all[i].name@
                != all[j].name@ by {
                let base = old(self).spec_funds().len() as int;
                if j >= base {
                    assert(all[j] == names@.map_values(f)[j - base]);
                    assert(all[j].name@ == names@[j - base]@);
                    if i >= base {
                        assert(all[i].name@ == names@[i - base]@);
                    } else {
                        assert(!has_fund_named(old(self).spec_funds(), names@[j - base]@));
                    }
                }
            }
        }
        Ok(())
    }

    /// Creates an asset in the named fund: assigns the next id
    /// (strictly increasing, never reused), optionally attaches the
    /// purchase record, and appends it in creation order. An unknown
    /// fund is refused and nothing changes.
    pub fn create_asset(
        &mut self,
        fund_name: &FundName,
        asset_type: AssetType,
        buy: Option<PurchaseData>,
    ) -> (r: Result<AssetId, AppErrors>)
        requires
            old(self).wf(),
            old(self).spec_assets().len() < AssetId::MAX,
        ensures
            final(self).wf(),
            final(self).same_but_assets(old(self)),
            final(self).spec_latest_prices() == old(self).spec_latest_prices(),
            !has_fund_named(old(self).spec_funds(), fund_name@) ==> r == Err::<AssetId, AppErrors>(
                AppErrors::UnknownFund,
            ) && final(self).spec_assets() == old(self).spec_assets()
                && final(self).spec_next_asset_id() == old(self).spec_next_asset_id(),
            has_fund_named(old(self).spec_funds(), fund_name@) ==> {
                &&& r == Ok::<AssetId, AppErrors>(old(self).spec_next_asset_id())
                &&& final(self).spec_next_asset_id() == old(self).spec_next_asset_id() + 1
                &&& final(self).spec_assets().len() == old(self).spec_assets().len() + 1
                &&& final(self).spec_assets().subrange(0, old(self).spec_assets().len() as int)
                    == old(self).spec_assets()
                &&& {
                    let a = final(self).spec_assets().last();
                    &&& a.id == old(self).spec_next_asset_id()
                    &&& old(self).spec_funds().contains(a.fund) && a.fund.name@ == fund_name@
                    &&& a.asset_type == asset_type
                    &&& a.buy == spec_buy_of(buy)
                    &&& a.sell is None
                    &&& a.owner_settings == old(self).spec_settings()
                }
            },
    {
        let fund = match self.internal_get_fund(fund_name) {
            Ok(f) => f,
            Err(e) => {
                return Err(e);
            },
        };
        let id = self.next_asset_id;
        let mut asset = Asset::new(id, fund, asset_type, self.user_settings);
        if let Some(pd) = buy {
            match asset.purchase(pd.settled_at, pd.amount, pd.currency) {
                Ok(()) => (),
                Err(e) => {
                    return Err(e);
                },
            }
        }
        self.next_asset_id = self.next_asset_id + 1;
        self.assets.push(asset);
        proof {
            assert(final(self).spec_assets().subrange(0, old(self).spec_assets().len() as int)
                =~= old(self).spec_assets());
        }
        Ok(id)
    }

    /// Imports a batch of asset records atomically: each record's fund
    /// is resolved, its class tag and data are turned into a typed
    /// asset, and its purchase fields, if any, are parsed. The first
    /// failing record aborts the whole import and nothing changes.
    pub fn create_assets(&mut self, imports: &Vec<AssetImport>) -> (r: Result<(), AppErrors>)
        requires
            old(self).wf(),
            old(self).spec_assets().len() + imports@.len() <= AssetId::MAX,
        ensures
            final(self).wf(),
            final(self).same_but_assets(old(self)),
            final(self).spec_latest_prices() == old(self).spec_latest_prices(),
            r matches Ok(()) ==> {
                &&& final(self).spec_assets().len() == old(self).spec_assets().len()
                    + imports@.len()
                &&& final(self).spec_assets().subrange(0, old(self).spec_assets().len() as int)
                    == old(self).spec_assets()
                &&& final(self).spec_next_asset_id() == old(self).spec_next_asset_id()
                    + imports@.len()
                &&& forall|j: int|
                    0 <= j < imports@.len() ==> import_converts(
                        #[trigger] imports@[j],
                        old(self).spec_funds(),
                        old(self).spec_settings(),
                        (old(self).spec_next_asset_id() + j) as AssetId,
                        final(self).spec_assets()[old(self).spec_assets().len() + j],
                    )
            },
            r matches Err(e) ==> *final(self) == *old(self) && exists|j: int|
                0 <= j < imports@.len() && spec_import_err(
                    #[trigger] imports@[j],
                    old(self).spec_funds(),
                ) == Some(e) && (forall|k: int|
                    0 <= k < j ==> spec_import_err(
                        #[trigger] imports@[k],
                        old(self).spec_funds(),
                    ) is None),
    {
        let mut new_assets: Vec<Asset> = Vec::new();
        let mut i: usize = 0;
        while i < imports.len()
            invariant
                old(self).wf(),
                *self == *old(self),
                old(self).spec_assets().len() + imports@.len() <= AssetId::MAX,
                i <= imports@.len(),
                new_assets@.len() == i,
                forall|j: int|
                    0 <= j < i ==> import_converts(
                        #[trigger] imports@[j],
                        old(self).spec_funds(),
                        old(self).spec_settings(),
                        (old(self).spec_next_asset_id() + j) as AssetId,
                        new_assets@[j],
                    ),
                forall|j: int|
                    0 <= j < i ==> spec_import_err(
                        #[trigger] imports@[j],
                        old(self).spec_funds(),
                    ) is None,
            decreases imports@.len() - i,
        {
            let imp = &imports[i];
            let fund = match self.internal_get_fund(&imp.fund_name) {
                Ok(f) => f,
                Err(e) => {
                    return Err(e);
                },
            };
            let at = match AssetType::new(imp.type_tag.as_str(), imp.data.duplicate()) {
                Ok(t) => t,
                Err(e) => {
                    return Err(e);
                },
            };
            let pd: Option<PurchaseData> = match &imp.buy {
                None => None,
                Some(b) => match import_purchase(b) {
                    Ok(p) => Some(p),
                    Err(e) => {
                        return Err(e);
                    },
                },
            };
            let id = self.next_asset_id + (i as u32);
            let mut asset = Asset::new(id, fund, at, self.user_settings);
            if let Some(p) = pd {
                match asset.purchase(p.settled_at, p.amount, p.currency) {
                    Ok(()) => (),
                    Err(e) => {
                        return Err(e);
                    },
                }
            }
            new_assets.push(asset);
            i = i + 1;
        }
        let added = new_assets.len() as u32;
        let ghost nav = new_assets@;
        self.next_asset_id = self.next_asset_id + added;
        self.assets.append(&mut new_assets);
        proof {
            let base = old(self).spec_assets().len() as int;
            assert(self.spec_assets().subrange(0, base) =~= old(self).spec_assets());
            assert forall|k: int| 0 <= k < self.spec_assets().len() implies #[trigger] self
                .spec_assets()[k].id == k by {
                if k < base {
                    assert(self.spec_assets()[k] == old(self).spec_assets()[k]);
                } else {
                    assert(self.spec_assets()[k] == nav[k - base]);
                    assert(import_converts(
                        imports@[k - base],
                        old(self).spec_funds(),
                        old(self).spec_settings(),
                        (old(self).spec_next_asset_id() + (k - base)) as AssetId,
                        nav[k - base],
                    ));
                }
            }
            assert forall|j: int| 0 <= j < imports@.len() implies import_converts(
                #[trigger] imports@[j],
                old(self).spec_funds(),
                old(self).spec_settings(),
                (old(self).spec_next_asset_id() + j) as AssetId,
                self.spec_assets()[old(self).spec_assets().len() + j],
            ) by {
                assert(self.spec_assets()[base + j] == nav[j]);
            }
        }
        Ok(())
    }

    /// Prices every asset against the active sheet, sampling the clock
    /// once, and records the snapshots in the id-to-snapshot mapping.
    /// The refresh is atomic: if any asset fails pricing, the whole
    /// refresh aborts and no snapshot is recorded (the first failure is
    /// reported).
    pub fn update_market(&mut self) -> (r: Result<(), AppErrors>)
        requires
            old(self).wf(),
        ensures
            final(self).wf(),
            final(self).same_but_assets(old(self)),
            final(self).spec_assets() == old(self).spec_assets(),
            final(self).spec_next_asset_id() == old(self).spec_next_asset_id(),
            r matches Ok(()) ==> forall|i: int|
                0 <= i < old(self).spec_assets().len() ==> {
                    let id = #[trigger] old(self).spec_assets()[i].id;
                    &&& final(self).spec_latest_prices().contains_key(id)
                    &&& snapshot_matches(
                        old(self).spec_assets()[i].asset_type,
                        old(self).spec_price_sheet(),
                        old(self).spec_settings().fiat_currency,
                        final(self).spec_latest_prices()[id],
                    )
                },
            r matches Ok(()) ==> forall|k: AssetId|
                k >= old(self).spec_assets().len()
                    ==> (#[trigger] final(self).spec_latest_prices().contains_key(k))
                        == old(self).spec_latest_prices().contains_key(k)
                    && (old(self).spec_latest_prices().contains_key(k)
                        ==> final(self).spec_latest_prices()[k]
                            == old(self).spec_latest_prices()[k]),
            r matches Err(e) ==> final(self).spec_latest_prices() == old(self).spec_latest_prices()
                && exists|i: int|
                0 <= i < old(self).spec_assets().len() && spec_price_err(
                    #[trigger] old(self).spec_assets()[i].asset_type,
                    old(self).spec_price_sheet(),
                ) == Some(e) && (forall|k: int|
                    0 <= k < i ==> spec_price_err(
                        #[trigger] old(self).spec_assets()[k].asset_type,
                        old(self).spec_price_sheet(),
                    ) is None),
    {
        let now = Now::new().to_epoch_millis();
        let currency = self.user_settings.fiat_currency;
        let mut snaps: Vec<MarketSnapshot> = Vec::new();
        let mut i: usize = 0;
        while i < self.assets.len()
            invariant
                old(self).wf(),
                *self == *old(self),
                currency == old(self).spec_settings().fiat_currency,
                i <= self.spec_assets().len(),
                snaps@.len() == i,
                forall|j: int|
                    0 <= j < i ==> snapshot_matches(
                        old(self).spec_assets()[j].asset_type,
                        old(self).spec_price_sheet(),
                        currency,
                        #[trigger] snaps@[j],
                    ),
                forall|j: int|
                    0 <= j < i ==> spec_price_err(
                        #[trigger] old(self).spec_assets()[j].asset_type,
                        old(self).spec_price_sheet(),
                    ) is None,
            decreases self.spec_assets().len() - i,
        {
            match self.assets[i].asset_type.naive_market_price_at(&self.price_sheet, now, currency)
            {
                Ok(s) => snaps.push(s),
                Err(e) => {
                    return Err(e);
                },
            }
            i = i + 1;
        }
        let mut i: usize = 0;
        while i < self.assets.len()
            invariant
                old(self).wf(),
                self.wf(),
                currency == old(self).spec_settings().fiat_currency,
                self.spec_assets() == old(self).spec_assets(),
                self.spec_funds() == old(self).spec_funds(),
                self.spec_next_asset_id() == old(self).spec_next_asset_id(),
                self.spec_price_sheet() == old(self).spec_price_sheet(),
                self.spec_settings() == old(self).spec_settings(),
                self.spec_owner() == old(self).spec_owner(),
                i <= self.spec_assets().len(),
                snaps@.len() == self.spec_assets().len(),
                forall|j: int|
                    0 <= j < snaps@.len() ==> snapshot_matches(
                        old(self).spec_assets()[j].asset_type,
                        old(self).spec_price_sheet(),
                        currency,
                        #[trigger] snaps@[j],
                    ),
                forall|j: int|
                    0 <= j < i ==> {
                        let id = #[trigger] old(self).spec_assets()[j].id;
                        &&& self.spec_latest_prices().contains_key(id)
                        &&& self.spec_latest_prices()[id] == snaps@[j]
                    },
                forall|k: AssetId|
                    k >= old(self).spec_assets().len()
                        ==> (#[trigger] self.spec_latest_prices().contains_key(k))
                            == old(self).spec_latest_prices().contains_key(k)
                        && (old(self).spec_latest_prices().contains_key(k)
                            ==> self.spec_latest_prices()[k]
                                == old(self).spec_latest_prices()[k]),
            decreases self.spec_assets().len() - i,
        {
            let ghost before = self.spec_latest_prices();
            let id = self.assets[i].id;
            let snap = snaps[i].duplicate();
            self.latest_prices.insert(id, snap);
            proof {
                assert(id == i);
                assert forall|k: AssetId|
                    k >= old(self).spec_assets().len() implies (self
                    .spec_latest_prices()
                    .contains_key(k) == old(self).spec_latest_prices().contains_key(k)) && (old(
                    self,
                ).spec_latest_prices().contains_key(k) ==> self.spec_latest_prices()[k] == old(
                    self,
                ).spec_latest_prices()[k]) by {
                    assert(k != id);
                    assert(self.spec_latest_prices().contains_key(k) == before.contains_key(k));
                    if before.contains_key(k) {
                        assert(self.spec_latest_prices()[k] == before[k]);
                    }
                }
            }
            i = i + 1;
        }
        Ok(())
    }

    /// Evaluates every asset at an explicit instant, in creation
    /// order; the first failing asset aborts the whole evaluation.
    pub fn evaluate_all_at(&self, currency: FiatCurrency, now: EpochMillis) -> (r: Result<
        Vec<AssetEvaluation>,
        AppErrors,
    >)
        ensures
            r matches Ok(evs) ==> all_evaluations_match(
                self.spec_assets(),
                currency,
                self.spec_price_sheet(),
                now,
                evs@,
            ),
            r matches Err(e) ==> first_evaluation_err(
                self.spec_assets(),
                currency,
                self.spec_price_sheet(),
                now,
                e,
            ),
    {
        let mut evs: Vec<AssetEvaluation> = Vec::new();
        let mut i: usize = 0;
        while i < self.assets.len()
            invariant
                i <= self.spec_assets().len(),
                evs@.len() == i,
                forall|j: int|
                    0 <= j < i ==> evaluation_matches(
                        #[trigger] self.spec_assets()[j],
                        currency,
                        self.spec_price_sheet(),
                        now,
                        evs@[j],
                    ),
                forall|j: int|
                    0 <= j < i ==> spec_evaluate_err(
                        #[trigger] self.spec_assets()[j],
                        currency,
                        self.spec_price_sheet(),
                        now,
                    ) is None,
            decreases self.spec_assets().len() - i,
        {
            match self.assets[i].evaluate_at(currency, &self.price_sheet, now) {
                Ok(ev) => evs.push(ev),
                Err(e) => {
                    return Err(e);
                },
            }
            i = i + 1;
        }
        Ok(evs)
    }

    /// Evaluates every asset against the wall clock, sampled once for
    /// the whole pass.
    pub fn evaluate_all(&self, currency: FiatCurrency) -> (r: Result<
        Vec<AssetEvaluation>,
        AppErrors,
    >)
        ensures
            r matches Ok(evs) ==> exists|now: EpochMillis|
                #[trigger] all_evaluations_match(
                    self.spec_assets(),
                    currency,
                    self.spec_price_sheet(),
                    now,
                    evs@,
                ),
            r matches Err(e) ==> exists|now: EpochMillis|
                #[trigger] first_evaluation_err(
                    self.spec_assets(),
                    currency,
                    self.spec_price_sheet(),
                    now,
                    e,
                ),
    {
        let now = Now::new().to_epoch_millis();
        let r = self.evaluate_all_at(currency, now);
        proof {
            if r is Ok {
                let evs = r->Ok_0;
                assert(all_evaluations_match(
                    self.spec_assets(),
                    currency,
                    self.spec_price_sheet(),
                    now,
                    evs@,
                ));
            } else {
                assert(first_evaluation_err(
                    self.spec_assets(),
                    currency,
                    self.spec_price_sheet(),
                    now,
                    r->Err_0,
                ));
            }
        }
        r
    }

    /// The rows of the dashboard: every asset evaluated in the
    /// default reporting currency.
    pub fn dashboard(&self) -> (r: Result<Vec<AssetEvaluation>, AppErrors>)
        ensures
            r matches Ok(evs) ==> exists|now: EpochMillis|
                #[trigger] all_evaluations_match(
                    self.spec_assets(),
                    FiatCurrency::MXN,
                    self.spec_price_sheet(),
                    now,
                    evs@,
                ),
            r matches Err(e) ==> exists|now: EpochMillis|
                #[trigger] first_evaluation_err(
                    self.spec_assets(),
                    FiatCurrency::MXN,
                    self.spec_price_sheet(),
                    now,
                    e,
                ),
    {
        self.evaluate_all(FiatCurrency::MXN)
    }
}

} // verus!
