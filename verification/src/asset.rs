//! The typed asset-class model: the closed set of variants, the
//! per-class pricing rule against a price sheet, and the asset with its
//! purchase record and evaluation.

use vstd::prelude::*;
use crate::errors::AppErrors;
use crate::models::{
    spec_entrance_amount, Buy, FiatCurrency, Fund, MarketSnapshot, PriceSheet, Sell,
};
use crate::now::Now;
use crate::transaction::Transaction;
use crate::types::{AssetId, EpochMillis};
use crate::user::UserSettings;
use crate::utils::{
    all_digits, chars_eq_str, digits_val, lower_seq, lowercase_chars, parse_u128_digits,
    proportional,
};

verus! {

/// One tracked asset class with its class-specific identifying and
/// quantity data. The tag alone determines which quantity field is
/// populated and which price-sheet field pricing consults.
#[derive(Debug, Clone, PartialEq)]
pub enum AssetType {
    Gold {
        presentation: String,
        weight: Option<String>,
        purity: Option<u16>,
        note: Option<String>,
    },
    Bitcoin { address: Option<String>, sats: u128 },
    Litecoin { address: Option<String>, lits: u128 },
    Ethereum { address: Option<String>, wei: u128 },
    Dogecoin { address: Option<String>, dogs: u128 },
    RealState { name: String, deed_date: Option<String> },
}

/// The plain, already-parsed fields an asset description may carry.
/// Which ones must be present depends on the class tag.
#[derive(Debug, Clone, PartialEq)]
pub struct AssetData {
    pub address: Option<String>,
    pub sats: Option<u128>,
    pub lits: Option<u128>,
    pub wei: Option<u128>,
    pub dogs: Option<u128>,
    pub presentation: Option<String>,
    pub weight: Option<String>,
    pub purity: Option<u16>,
    pub note: Option<String>,
    pub name: Option<String>,
    pub deed_date: Option<String>,
}

impl Default for AssetData {
    /// A description with every field absent.
    fn default() -> (r: AssetData)
        ensures
            r == (AssetData {
                address: None,
                sats: None,
                lits: None,
                wei: None,
                dogs: None,
                presentation: None,
                weight: None,
                purity: None,
                note: None,
                name: None,
                deed_date: None,
            }),
    {
        AssetData {
            address: None,
            sats: None,
            lits: None,
            wei: None,
            dogs: None,
            presentation: None,
            weight: None,
            purity: None,
            note: None,
            name: None,
            deed_date: None,
        }
    }
}

/// Copies an optional owned string.
fn dup_opt_string(o: &Option<String>) -> (r: Option<String>)
    ensures
        r == *o,
{
    match o {
        Some(s) => Some(s.clone()),
        None => None,
    }
}

impl AssetData {
    /// An owned copy of this description.
    pub fn duplicate(&self) -> (r: AssetData)
        ensures
            r == *self,
    {
        AssetData {
            address: dup_opt_string(&self.address),
            sats: self.sats,
            lits: self.lits,
            wei: self.wei,
            dogs: self.dogs,
            presentation: dup_opt_string(&self.presentation),
            weight: dup_opt_string(&self.weight),
            purity: self.purity,
            note: dup_opt_string(&self.note),
            name: dup_opt_string(&self.name),
            deed_date: dup_opt_string(&self.deed_date),
        }
    }
}

/// The asset type a lower-cased class tag and a description denote: an
/// unknown tag is rejected, and so is a description lacking the field
/// the class requires.
pub open spec fn asset_type_of(tag: Seq<char>, data: AssetData) -> Result<AssetType, AppErrors> {
    if lower_seq(tag) == "bitcoin"@ {
        match data.sats {
            Some(q) => Ok(AssetType::Bitcoin { address: data.address, sats: q }),
            None => Err(AppErrors::MissingField),
        }
    } else if lower_seq(tag) == "litecoin"@ {
        match data.lits {
            Some(q) => Ok(AssetType::Litecoin { address: data.address, lits: q }),
            None => Err(AppErrors::MissingField),
        }
    } else if lower_seq(tag) == "ethereum"@ {
        match data.wei {
            Some(q) => Ok(AssetType::Ethereum { address: data.address, wei: q }),
            None => Err(AppErrors::MissingField),
        }
    } else if lower_seq(tag) == "dogecoin"@ {
        match data.dogs {
            Some(q) => Ok(AssetType::Dogecoin { address: data.address, dogs: q }),
            None => Err(AppErrors::MissingField),
        }
    } else if lower_seq(tag) == "real_state"@ {
        match data.name {
            Some(n) => Ok(AssetType::RealState { name: n, deed_date: data.deed_date }),
            None => Err(AppErrors::MissingField),
        }
    } else if lower_seq(tag) == "gold"@ {
        match data.presentation {
            Some(p) => Ok(
                AssetType::Gold {
                    presentation: p,
                    weight: data.weight,
                    purity: data.purity,
                    note: data.note,
                },
            ),
            None => Err(AppErrors::MissingField),
        }
    } else {
        Err(AppErrors::UnknownAssetTag)
    }
}

/// The exact median price the naive pricing rule assigns an asset
/// class against a sheet, as a mathematical integer, or the failure it
/// hits: a missing quantity field, a malformed weight, an unsupported
/// purity, or an absent price-sheet field. Real estate has no pricing
/// source and gets a fixed placeholder.
pub open spec fn spec_naive_median(a: AssetType, sheet: PriceSheet) -> Result<int, AppErrors> {
    match a {
        AssetType::Bitcoin { address, sats } => match sheet.btc {
            Some(p) => Ok(p * sats / 100_000_000),
            None => Err(AppErrors::MissingPriceField),
        },
        AssetType::Litecoin { address, lits } => match sheet.ltc {
            Some(p) => Ok(p * lits / 100_000_000),
            None => Err(AppErrors::MissingPriceField),
        },
        AssetType::Ethereum { address, wei } => match sheet.eth {
            Some(p) => Ok(p * wei / 1_000_000_000_000_000_000),
            None => Err(AppErrors::MissingPriceField),
        },
        AssetType::Dogecoin { address, dogs } => match sheet.doge_4_decimals {
            Some(p) => Ok(p * dogs / 10_000_000_000),
            None => Err(AppErrors::MissingPriceField),
        },
        AssetType::Gold { presentation, weight, purity, note } => match weight {
            None => Err(AppErrors::MissingField),
            Some(w) => {
                if !(w@.len() > 0 && all_digits(w@) && digits_val(w@) <= u128::MAX) {
                    Err(AppErrors::MalformedQuantity)
                } else {
                    match purity {
                        None => Err(AppErrors::MissingField),
                        Some(pu) => {
                            if pu == 9999 {
                                match sheet.gold_gram_24k {
                                    Some(p) => Ok(p * digits_val(w@)),
                                    None => Err(AppErrors::MissingPriceField),
                                }
                            } else if pu == 9000 {
                                match sheet.gold_gram_21k {
                                    Some(p) => Ok(p * digits_val(w@)),
                                    None => Err(AppErrors::MissingPriceField),
                                }
                            } else {
                                Err(AppErrors::UnsupportedPurity)
                            }
                        },
                    }
                }
            },
        },
        AssetType::RealState { name, deed_date } => Ok(2_000_000),
    }
}

/// The failure pricing an asset class would report, if any: the rule's
/// own failure, or a median too large for the 64-bit snapshot domain.
pub open spec fn spec_price_err(a: AssetType, sheet: PriceSheet) -> Option<AppErrors> {
    match spec_naive_median(a, sheet) {
        Err(e) => Some(e),
        Ok(v) => if v > u64::MAX {
            Some(AppErrors::ArithmeticOverflow)
        } else {
            None
        },
    }
}

/// What the pricing rule promises of a produced snapshot apart from
/// its timestamp: the median is exactly the class rule's value, the
/// class label and currency are set, and the optional market fields
/// are left unset.
pub open spec fn snapshot_matches(
    a: AssetType,
    sheet: PriceSheet,
    currency: FiatCurrency,
    snap: MarketSnapshot,
) -> bool {
    &&& spec_naive_median(a, sheet) == Ok::<int, AppErrors>(snap.median as int)
    &&& snap.asset_type_str@ == a.label_spec()
    &&& snap.currency == currency
    &&& snap.source is None
    &&& snap.market is None
    &&& snap.top is None
    &&& snap.bottom is None
}

impl AssetType {
    /// The human-readable class label.
    pub open spec fn label_spec(&self) -> Seq<char> {
        match self {
            AssetType::Gold { .. } => "GOLD"@,
            AssetType::Bitcoin { .. } => "BTC"@,
            AssetType::Dogecoin { .. } => "DOGE"@,
            AssetType::Litecoin { .. } => "LTC"@,
            AssetType::Ethereum { .. } => "ETH"@,
            AssetType::RealState { .. } => "REAL_STATE"@,
        }
    }

    /// The human-readable class label.
    pub fn type_label(&self) -> (r: &'static str)
        ensures
            r@ == self.label_spec(),
    {
        match self {
            AssetType::Gold { .. } => "GOLD",
            AssetType::Bitcoin { .. } => "BTC",
            AssetType::Dogecoin { .. } => "DOGE",
            AssetType::Litecoin { .. } => "LTC",
            AssetType::Ethereum { .. } => "ETH",
            AssetType::RealState { .. } => "REAL_STATE",
        }
    }

    /// Builds an asset type from its class tag (matched
    /// case-insensitively) and its already-parsed description.
    pub fn new(type_str: &str, data: AssetData) -> (r: Result<AssetType, AppErrors>)
        ensures
            r == asset_type_of(type_str@, data),
    {
        let v = lowercase_chars(type_str);
        let AssetData {
            address,
            sats,
            lits,
            wei,
            dogs,
            presentation,
            weight,
            purity,
            note,
            name,
            deed_date,
        } = data;
        if chars_eq_str(&v, "bitcoin") {
            match sats {
                Some(q) => Ok(AssetType::Bitcoin { address, sats: q }),
                None => Err(AppErrors::MissingField),
            }
        } else if chars_eq_str(&v, "litecoin") {
            match lits {
                Some(q) => Ok(AssetType::Litecoin { address, lits: q }),
                None => Err(AppErrors::MissingField),
            }
        } else if chars_eq_str(&v, "ethereum") {
            match wei {
                Some(q) => Ok(AssetType::Ethereum { address, wei: q }),
                None => Err(AppErrors::MissingField),
            }
        } else if chars_eq_str(&v, "dogecoin") {
            match dogs {
                Some(q) => Ok(AssetType::Dogecoin { address, dogs: q }),
                None => Err(AppErrors::MissingField),
            }
        } else if chars_eq_str(&v, "real_state") {
            match name {
                Some(n) => Ok(AssetType::RealState { name: n, deed_date }),
                None => Err(AppErrors::MissingField),
            }
        } else if chars_eq_str(&v, "gold") {
            match presentation {
                Some(p) => Ok(AssetType::Gold { presentation: p, weight, purity, note }),
                None => Err(AppErrors::MissingField),
            }
        } else {
            Err(AppErrors::UnknownAssetTag)
        }
    }

    /// Prices this asset class against the sheet, stamping the given
    /// time and currency. Every failure is explicit: a missing sheet
    /// field, a malformed weight, an unsupported purity, or a median
    /// that does not fit the 64-bit snapshot domain.
    pub fn naive_market_price_at(
        &self,
        sheet: &PriceSheet,
        now: EpochMillis,
        currency: FiatCurrency,
    ) -> (r: Result<MarketSnapshot, AppErrors>)
        ensures
            (r is Ok) == (spec_naive_median(*self, *sheet) matches Ok(v) && v <= u64::MAX),
            r matches Ok(snap) ==> snapshot_matches(*self, *sheet, currency, snap)
                && snap.timestamp == now,
            r matches Err(e) ==> (spec_naive_median(*self, *sheet) == Err::<int, AppErrors>(e) || (
            spec_naive_median(*self, *sheet) matches Ok(v) && v > u64::MAX && e
                == AppErrors::ArithmeticOverflow)),
    {
        let median_wide: u128 = match self {
            AssetType::Bitcoin { address, sats } => match sheet.btc {
                Some(p) => match proportional(p as u128, *sats, 100_000_000) {
                    Ok(v) => v,
                    Err(e) => {
                        return Err(e);
                    },
                },
                None => {
                    return Err(AppErrors::MissingPriceField);
                },
            },
            AssetType::Litecoin { address, lits } => match sheet.ltc {
                Some(p) => match proportional(p as u128, *lits, 100_000_000) {
                    Ok(v) => v,
                    Err(e) => {
                        return Err(e);
                    },
                },
                None => {
                    return Err(AppErrors::MissingPriceField);
                },
            },
            AssetType::Ethereum { address, wei } => match sheet.eth {
                Some(p) => match proportional(p as u128, *wei, 1_000_000_000_000_000_000) {
                    Ok(v) => v,
                    Err(e) => {
                        return Err(e);
                    },
                },
                None => {
                    return Err(AppErrors::MissingPriceField);
                },
            },
            AssetType::Dogecoin { address, dogs } => match sheet.doge_4_decimals {
                Some(p) => match proportional(p as u128, *dogs, 10_000_000_000) {
                    Ok(v) => v,
                    Err(e) => {
                        return Err(e);
                    },
                },
                None => {
                    return Err(AppErrors::MissingPriceField);
                },
            },
            AssetType::Gold { presentation, weight, purity, note } => {
                let w = match weight {
                    Some(w) => w,
                    None => {
                        return Err(AppErrors::MissingField);
                    },
                };
                let wv = match parse_u128_digits(w.as_str()) {
                    Ok(v) => v,
                    Err(e) => {
                        return Err(e);
                    },
                };
                let pu = match purity {
                    Some(p) => *p,
                    None => {
                        return Err(AppErrors::MissingField);
                    },
                };
                let price: u64 = if pu == 9999 {
                    match sheet.gold_gram_24k {
                        Some(p) => p,
                        None => {
                            return Err(AppErrors::MissingPriceField);
                        },
                    }
                } else if pu == 9000 {
                    match sheet.gold_gram_21k {
                        Some(p) => p,
                        None => {
                            return Err(AppErrors::MissingPriceField);
                        },
                    }
                } else {
                    return Err(AppErrors::UnsupportedPurity);
                };
                match proportional(price as u128, wv, 1) {
                    Ok(v) => v,
                    Err(e) => {
                        return Err(e);
                    },
                }
            },
            AssetType::RealState { name, deed_date } => 2_000_000u128,
        };
        if median_wide > u64::MAX as u128 {
            return Err(AppErrors::ArithmeticOverflow);
        }
        Ok(
            MarketSnapshot::new(
                now,
                self.type_label().to_owned(),
                None,
                currency,
                None,
                None,
                None,
                median_wide as u64,
            ),
        )
    }
}

/// A computed report row comparing cost basis to current valuation.
#[derive(Debug, Clone, PartialEq)]
pub struct AssetEvaluation {
    pub asset_id: AssetId,
    pub millisec_since_purchase: EpochMillis,
    pub asset_type_str: String,
    pub entrance_amount: u128,
    pub now_amount: u128,
    pub currency: FiatCurrency,
}

/// A single tracked holding: its class data, owning fund, optional
/// purchase and sale records, and the owner's settings.
#[derive(Debug, Clone, PartialEq)]
pub struct Asset {
    pub id: AssetId,
    pub fund: Fund,
    pub asset_type: AssetType,
    pub buy: Option<Buy>,
    pub sell: Option<Sell>,
    pub owner_settings: UserSettings,
}

/// The cost basis of an asset in the owner's reporting currency, or
/// why none can be given.
pub open spec fn spec_asset_entrance(asset: Asset) -> Result<u128, AppErrors> {
    match asset.buy {
        None => Err(AppErrors::MissingPurchase),
        Some(b) => spec_entrance_amount(b.transaction, asset.owner_settings.fiat_currency),
    }
}

/// The first failure evaluating an asset at `now` would hit, if any:
/// a missing purchase record, a settlement in the future, a currency
/// mismatch, then a pricing failure or an oversized median.
pub open spec fn spec_evaluate_err(
    asset: Asset,
    currency: FiatCurrency,
    sheet: PriceSheet,
    now: EpochMillis,
) -> Option<AppErrors> {
    match asset.buy {
        None => Some(AppErrors::MissingPurchase),
        Some(b) => {
            if now < b.settled_at {
                Some(AppErrors::FutureSettlement)
            } else {
                match spec_entrance_amount(b.transaction, currency) {
                    Err(e) => Some(e),
                    Ok(_) => match spec_naive_median(asset.asset_type, sheet) {
                        Err(e) => Some(e),
                        Ok(v) => {
                            if v > u64::MAX {
                                Some(AppErrors::ArithmeticOverflow)
                            } else {
                                None
                            }
                        },
                    },
                }
            }
        },
    }
}

/// What a successful evaluation row holds: the asset's identifier and
/// label, the elapsed time since settlement, the exact cost basis in
/// the reporting currency, and the exact median of the pricing rule.
pub open spec fn evaluation_matches(
    asset: Asset,
    currency: FiatCurrency,
    sheet: PriceSheet,
    now: EpochMillis,
    ev: AssetEvaluation,
) -> bool {
    &&& asset.buy matches Some(b) && now >= b.settled_at && ev.millisec_since_purchase == now
        - b.settled_at && spec_entrance_amount(b.transaction, currency) == Ok::<u128, AppErrors>(
        ev.entrance_amount,
    )
    &&& ev.asset_id == asset.id
    &&& ev.asset_type_str@ == asset.asset_type.label_spec()
    &&& spec_naive_median(asset.asset_type, sheet) == Ok::<int, AppErrors>(ev.now_amount as int)
    &&& ev.currency == currency
}

impl Asset {
    pub fn new(id: AssetId, fund: Fund, asset_type: AssetType, owner_settings: UserSettings) -> (r:
        Asset)
        ensures
            r == (Asset { id, fund, asset_type, buy: None, sell: None, owner_settings }),
    {
        Asset { id, fund, asset_type, buy: None, sell: None, owner_settings }
    }

    /// Attaches the purchase record that established this asset's cost
    /// basis. An asset has at most one: a second attachment is refused
    /// and leaves the asset unchanged.
    pub fn purchase(&mut self, settled_at: EpochMillis, amount: u128, currency: FiatCurrency) -> (r:
        Result<(), AppErrors>)
        ensures
            old(self).buy is Some ==> r == Err::<(), AppErrors>(AppErrors::DuplicatePurchase)
                && *final(self) == *old(self),
            old(self).buy is None ==> r == Ok::<(), AppErrors>(()) && *final(self) == (Asset {
                buy: Some(
                    Buy {
                        transaction: Transaction::FiatCash { amount, currency },
                        settled_at,
                    },
                ),
                ..*old(self)
            }),
    {
        if self.buy.is_some() {
            return Err(AppErrors::DuplicatePurchase);
        }
        proof {
            reveal_strlit("fiat_cash");
            assert(lower_seq("fiat_cash"@) =~= "fiat_cash"@);
        }
        match Buy::new(settled_at, "fiat_cash", amount, currency) {
            Ok(b) => {
                self.buy = Some(b);
                Ok(())
            },
            Err(e) => Err(e),
        }
    }

    /// The single total the owner paid for this asset, in the owner's
    /// reporting currency.
    pub fn get_entrance_amount(&self) -> (r: Result<u128, AppErrors>)
        ensures
            r == spec_asset_entrance(*self),
    {
        match &self.buy {
            None => Err(AppErrors::MissingPurchase),
            Some(b) => b.get_entrance_amount(self.owner_settings.fiat_currency),
        }
    }

    /// Evaluates this asset at an explicit instant: elapsed time since
    /// settlement, cost basis and current median, all in the given
    /// reporting currency.
    pub fn evaluate_at(
        &self,
        currency: FiatCurrency,
        price_sheet: &PriceSheet,
        now: EpochMillis,
    ) -> (r: Result<AssetEvaluation, AppErrors>)
        ensures
            match r {
                Ok(ev) => spec_evaluate_err(*self, currency, *price_sheet, now) is None
                    && evaluation_matches(*self, currency, *price_sheet, now, ev),
                Err(e) => spec_evaluate_err(*self, currency, *price_sheet, now) == Some(e),
            },
    {
        let b = match &self.buy {
            Some(b) => b,
            None => {
                return Err(AppErrors::MissingPurchase);
            },
        };
        let elapsed = match Now::millis_between(now, b.settled_at) {
            Ok(d) => d,
            Err(e) => {
                return Err(e);
            },
        };
        let entrance = match b.get_entrance_amount(currency) {
            Ok(v) => v,
            Err(e) => {
                return Err(e);
            },
        };
        let snap = match self.asset_type.naive_market_price_at(price_sheet, now, currency) {
            Ok(s) => s,
            Err(e) => {
                return Err(e);
            },
        };
        Ok(
            AssetEvaluation {
                asset_id: self.id,
                millisec_since_purchase: elapsed,
                asset_type_str: self.asset_type.type_label().to_owned(),
                entrance_amount: entrance,
                now_amount: snap.median as u128,
                currency,
            },
        )
    }

    /// Evaluates this asset against the wall clock. The elapsed-time
    /// field depends on the sampled instant; everything else is pinned
    /// by the evaluation contract at that instant.
    pub fn evaluate(&self, currency: FiatCurrency, price_sheet: &PriceSheet) -> (r: Result<
        AssetEvaluation,
        AppErrors,
    >)
        ensures
            self.buy is None ==> r == Err::<AssetEvaluation, AppErrors>(AppErrors::MissingPurchase),
            r matches Ok(ev) ==> exists|now: EpochMillis|
                #[trigger] evaluation_matches(*self, currency, *price_sheet, now, ev),
            r matches Err(e) ==> exists|now: EpochMillis|
                #[trigger] spec_evaluate_err(*self, currency, *price_sheet, now) == Some(e),
    {
        let now = Now::new().to_epoch_millis();
        let r = self.evaluate_at(currency, price_sheet, now);
        proof {
            if r is Ok {
                assert(evaluation_matches(*self, currency, *price_sheet, now, r->Ok_0));
            } else {
                assert(spec_evaluate_err(*self, currency, *price_sheet, now) == Some(r->Err_0));
            }
        }
        r
    }

    /// Prices this asset by the naive rule in the owner's reporting
    /// currency, stamping the wall clock; requires a sheet to be given.
    pub fn get_market_price(&self, use_price_sheet: Option<&PriceSheet>) -> (r: Result<
        MarketSnapshot,
        AppErrors,
    >)
        ensures
            use_price_sheet is None ==> r == Err::<MarketSnapshot, AppErrors>(
                AppErrors::MissingPriceField,
            ),
            use_price_sheet matches Some(sheet) ==> {
                &&& (r is Ok) == (spec_naive_median(self.asset_type, *sheet) matches Ok(v) && v
                    <= u64::MAX)
                &&& r matches Ok(snap) ==> snapshot_matches(
                    self.asset_type,
                    *sheet,
                    self.owner_settings.fiat_currency,
                    snap,
                )
                &&& r matches Err(e) ==> (spec_naive_median(self.asset_type, *sheet) == Err::<
                    int,
                    AppErrors,
                >(e) || (spec_naive_median(self.asset_type, *sheet) matches Ok(v) && v > u64::MAX
                    && e == AppErrors::ArithmeticOverflow))
            },
    {
        match use_price_sheet {
            None => Err(AppErrors::MissingPriceField),
            Some(sheet) => {
                let now = Now::new().to_epoch_millis();
                self.asset_type.naive_market_price_at(sheet, now, self.owner_settings.fiat_currency)
            },
        }
    }
}

} // verus!
