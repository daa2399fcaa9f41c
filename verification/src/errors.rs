use vstd::prelude::*;

verus! {

/// Every failure the library reports. The variants keep the error
/// taxonomy apart: malformed input, invariant violations, domain gaps
/// (explicitly unsupported operations), and arithmetic overflow.
#[derive(Debug, Clone, Copy, PartialEq, Eq, Structural)]
pub enum AppErrors {
    /// A password did not match the stored hash.
    InvalidPassword,
    /// The password hasher refused the input.
    PasswordHashFailed,
    /// An asset-class tag matched no known class.
    UnknownAssetTag,
    /// A currency token matched neither MXN nor USD.
    UnknownCurrency,
    /// A transaction kind other than fiat cash was named.
    UnknownTransactionKind,
    /// A required field of an asset description was absent.
    MissingField,
    /// A quantity string was not a plain decimal integer in range.
    MalformedQuantity,
    /// A settlement date string did not parse under the expected format.
    MalformedDate,
    /// A date format other than year-month-day was requested.
    UnsupportedDateFormat,
    /// A fund with the same name already exists.
    DuplicateFund,
    /// No fund with the given name exists.
    UnknownFund,
    /// The asset already has a purchase record.
    DuplicatePurchase,
    /// The asset has no purchase record yet.
    MissingPurchase,
    /// The purchase currency differs from the reporting currency and no
    /// conversion is implemented.
    CurrencyMismatch,
    /// A gold purity code other than the supported ones was given.
    UnsupportedPurity,
    /// The price sheet lacks the field this asset class is priced by.
    MissingPriceField,
    /// A computed amount does not fit its output type.
    ArithmeticOverflow,
    /// The settlement timestamp lies in the future of the sampled clock.
    FutureSettlement,
}

} // verus!
