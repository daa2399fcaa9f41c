//! Shared data model: currencies, environments, purchase and sale
//! records, funds, market snapshots and the price sheet.

use vstd::prelude::*;
use crate::errors::AppErrors;
use crate::transaction::Transaction;
use crate::types::{EpochMillis, FundName};
use crate::utils::{normal_seq, lower_seq, normalize_chars, lowercase_chars, chars_eq_str};

verus! {

/// A fiat currency the owner can report in.
#[derive(Debug, Clone, Copy, PartialEq, Eq, Structural)]
pub enum FiatCurrency {
    MXN,
    USD,
}

/// What parsing a currency token yields: the token is upper-cased with
/// ASCII whitespace stripped, then matched exactly; anything else is an
/// unknown currency.
pub open spec fn spec_currency_of(s: Seq<char>) -> Result<FiatCurrency, AppErrors> {
    if normal_seq(s) == "MXN"@ {
        Ok(FiatCurrency::MXN)
    } else if normal_seq(s) == "USD"@ {
        Ok(FiatCurrency::USD)
    } else {
        Err(AppErrors::UnknownCurrency)
    }
}

impl FiatCurrency {
    /// Parses a currency token, tolerating case and stray whitespace.
    pub fn from_str(input: &str) -> (r: Result<FiatCurrency, AppErrors>)
        ensures
            r == spec_currency_of(input@),
    {
        let v = normalize_chars(input);
        if chars_eq_str(&v, "MXN") {
            Ok(FiatCurrency::MXN)
        } else if chars_eq_str(&v, "USD") {
            Ok(FiatCurrency::USD)
        } else {
            Err(AppErrors::UnknownCurrency)
        }
    }
}

/// The environment an application instance runs under.
#[derive(Debug, Clone, Copy, PartialEq, Eq, Structural)]
pub enum AppEnv {
    Dev,
    Prod,
}

impl AppEnv {
    /// The lower-case label this environment prints as.
    pub fn label(&self) -> (r: &'static str)
        ensures
            *self is Dev ==> r@ == "dev"@,
            *self is Prod ==> r@ == "prod"@,
    {
        match *self {
            AppEnv::Dev => "dev",
            AppEnv::Prod => "prod",
        }
    }
}

/// A purchase record: the settlement time plus the transaction that
/// established the cost basis.
#[derive(Debug, Clone, Copy, PartialEq)]
pub struct Buy {
    pub transaction: Transaction,
    pub settled_at: EpochMillis,
}

/// The cost basis a transaction yields in the given reporting
/// currency: the amount paid when the currencies agree; a differing
/// purchase currency is an explicit domain gap, never a conversion.
pub open spec fn spec_entrance_amount(t: Transaction, reporting: FiatCurrency) -> Result<
    u128,
    AppErrors,
> {
    match t {
        Transaction::FiatCash { amount, currency } => {
            if currency == reporting {
                Ok(amount)
            } else {
                Err(AppErrors::CurrencyMismatch)
            }
        },
    }
}

impl Buy {
    /// Builds a purchase record; the only transaction kind understood
    /// is fiat cash (matched on the lower-cased tag).
    pub fn new(
        settled_at: EpochMillis,
        transaction_str: &str,
        amount: u128,
        currency: FiatCurrency,
    ) -> (r: Result<Buy, AppErrors>)
        ensures
            lower_seq(transaction_str@) == "fiat_cash"@ ==> r == Ok::<Buy, AppErrors>(
                (Buy { transaction: Transaction::FiatCash { amount, currency }, settled_at }),
            ),
            lower_seq(transaction_str@) != "fiat_cash"@ ==> r == Err::<Buy, AppErrors>(
                AppErrors::UnknownTransactionKind,
            ),
    {
        let v = lowercase_chars(transaction_str);
        if chars_eq_str(&v, "fiat_cash") {
            Ok(Buy { transaction: Transaction::FiatCash { amount, currency }, settled_at })
        } else {
            Err(AppErrors::UnknownTransactionKind)
        }
    }

    /// The amount and currency of the underlying transaction.
    pub fn get_transaction_amount_currency(&self) -> (r: (u128, FiatCurrency))
        ensures
            self.transaction matches Transaction::FiatCash { amount, currency } && r.0 == amount
                && r.1 == currency,
    {
        match self.transaction {
            Transaction::FiatCash { amount, currency } => (amount, currency),
        }
    }

    /// The cost basis in the reporting currency; fails on a currency
    /// mismatch instead of converting.
    pub fn get_entrance_amount(&self, user_fiat_currency: FiatCurrency) -> (r: Result<
        u128,
        AppErrors,
    >)
        ensures
            r == spec_entrance_amount(self.transaction, user_fiat_currency),
    {
        match self.transaction {
            Transaction::FiatCash { amount, currency } => {
                if currency == user_fiat_currency {
                    Ok(amount)
                } else {
                    Err(AppErrors::CurrencyMismatch)
                }
            },
        }
    }
}

/// A sale record. Modeled for completeness; no operation produces one.
#[derive(Debug, Clone, Copy, PartialEq)]
pub struct Sell {
    pub transaction: Transaction,
    pub settled_at: EpochMillis,
}

/// A named grouping of assets.
#[derive(Debug, Clone, PartialEq)]
pub struct Fund {
    pub name: FundName,
    pub location: Option<String>,
}

impl Fund {
    pub fn new(name: FundName) -> (r: Fund)
        ensures
            r.name == name,
            r.location is None,
    {
        Fund { name, location: None }
    }
}

/// A computed point-in-time valuation of one asset's unit price.
#[derive(Debug, Clone, PartialEq)]
pub struct MarketSnapshot {
    pub timestamp: EpochMillis,
    pub asset_type_str: String,
    pub source: Option<String>,
    pub currency: FiatCurrency,
    pub market: Option<String>,
    pub top: Option<u64>,
    pub bottom: Option<u64>,
    pub median: u64,
}

impl MarketSnapshot {
    pub fn new(
        timestamp: EpochMillis,
        asset_type_str: String,
        source: Option<String>,
        currency: FiatCurrency,
        market: Option<String>,
        top: Option<u64>,
        bottom: Option<u64>,
        median: u64,
    ) -> (r: MarketSnapshot)
        ensures
            r == (MarketSnapshot {
                timestamp,
                asset_type_str,
                source,
                currency,
                market,
                top,
                bottom,
                median,
            }),
    {
        MarketSnapshot { timestamp, asset_type_str, source, currency, market, top, bottom, median }
    }

    /// An owned copy of this snapshot.
    pub fn duplicate(&self) -> (r: MarketSnapshot)
        ensures
            r == *self,
    {
        MarketSnapshot {
            timestamp: self.timestamp,
            asset_type_str: self.asset_type_str.clone(),
            source: match &self.source {
                Some(s) => Some(s.clone()),
                None => None,
            },
            currency: self.currency,
            market: match &self.market {
                Some(s) => Some(s.clone()),
                None => None,
            },
            top: self.top,
            bottom: self.bottom,
            median: self.median,
        }
    }
}

/// Unit reference prices in minor currency units (two implied
/// decimals). Any field may be absent; an absent field fails lazily
/// when a pricing rule needs it.
#[derive(Debug, Clone, Copy, PartialEq)]
pub struct PriceSheet {
    pub gold_gram_24k: Option<u64>,
    pub gold_gram_21k: Option<u64>,
    pub btc: Option<u64>,
    pub doge_4_decimals: Option<u64>,
    pub ltc: Option<u64>,
    pub eth: Option<u64>,
    pub created_at: EpochMillis,
}

impl PriceSheet {
    /// Builds a sheet from already-parsed optional prices; loading and
    /// decoding the sheet from storage stays outside the library.
    pub fn new(
        gold_gram_24k: Option<u64>,
        gold_gram_21k: Option<u64>,
        btc: Option<u64>,
        doge_4_decimals: Option<u64>,
        ltc: Option<u64>,
        eth: Option<u64>,
        created_at: EpochMillis,
    ) -> (r: PriceSheet)
        ensures
            r == (PriceSheet {
                gold_gram_24k,
                gold_gram_21k,
                btc,
                doge_4_decimals,
                ltc,
                eth,
                created_at,
            }),
    {
        PriceSheet { gold_gram_24k, gold_gram_21k, btc, doge_4_decimals, ltc, eth, created_at }
    }
}

} // verus!
