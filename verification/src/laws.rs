//! The library's general laws, stated and proved once over the spec
//! functions that the executable contracts are written in. The
//! proportional-arithmetic law — the result is exactly the floor of
//! `amount * numerator / denominator`, however large the intermediate
//! product — is the `ensures` of `utils::proportional` itself.

use vstd::prelude::*;
use crate::asset::{
    asset_type_of, snapshot_matches, spec_asset_entrance, Asset, AssetData, AssetType,
};
use crate::errors::AppErrors;
use crate::models::{Buy, FiatCurrency, MarketSnapshot, PriceSheet};
use crate::transaction::Transaction;
use crate::types::EpochMillis;
use crate::utils::lower_seq;

verus! {

/// Law: the pricing rule is idempotent. Two snapshots produced for the
/// same asset class, price sheet and currency agree on every field but
/// the timestamp; in particular their medians are identical.
pub proof fn lemma_pricing_idempotent(
    a: AssetType,
    sheet: PriceSheet,
    currency: FiatCurrency,
    s1: MarketSnapshot,
    s2: MarketSnapshot,
)
    requires
        snapshot_matches(a, sheet, currency, s1),
        snapshot_matches(a, sheet, currency, s2),
    ensures
        s1.median == s2.median,
        s1.asset_type_str@ == s2.asset_type_str@,
        s1.currency == s2.currency,
        s1.source == s2.source,
        s1.market == s2.market,
        s1.top == s2.top,
        s1.bottom == s2.bottom,
{
}

/// Law: constructing an asset type from its class tag and re-deriving
/// the class label is consistent: the tag "bitcoin" yields the label
/// "BTC", and so on for every class.
pub proof fn lemma_tag_label_round_trip(tag: Seq<char>, data: AssetData)
    requires
        asset_type_of(tag, data) is Ok,
    ensures
        lower_seq(tag) == "bitcoin"@ ==> asset_type_of(tag, data)->Ok_0.label_spec() == "BTC"@,
        lower_seq(tag) == "litecoin"@ ==> asset_type_of(tag, data)->Ok_0.label_spec() == "LTC"@,
        lower_seq(tag) == "ethereum"@ ==> asset_type_of(tag, data)->Ok_0.label_spec() == "ETH"@,
        lower_seq(tag) == "dogecoin"@ ==> asset_type_of(tag, data)->Ok_0.label_spec() == "DOGE"@,
        lower_seq(tag) == "gold"@ ==> asset_type_of(tag, data)->Ok_0.label_spec() == "GOLD"@,
        lower_seq(tag) == "real_state"@ ==> asset_type_of(tag, data)->Ok_0.label_spec()
            == "REAL_STATE"@,
{
    reveal_strlit("bitcoin");
    reveal_strlit("litecoin");
    reveal_strlit("ethereum");
    reveal_strlit("dogecoin");
    reveal_strlit("gold");
    reveal_strlit("real_state");
    assert(("litecoin"@)[0] == 'l' && ("ethereum"@)[0] == 'e' && ("dogecoin"@)[0] == 'd');
    if lower_seq(tag) == "gold"@ {
        assert("gold"@.len() == 4);
        assert("bitcoin"@.len() == 7);
        assert(lower_seq(tag).len() == 4);
        assert("gold"@ != "bitcoin"@);
        assert(lower_seq(tag) != "bitcoin"@);
        assert(lower_seq(tag) != "litecoin"@);
        assert(lower_seq(tag) != "ethereum"@);
        assert(lower_seq(tag) != "dogecoin"@);
        assert(lower_seq(tag) != "real_state"@);
        assert(asset_type_of(tag, data)->Ok_0 is Gold);
    }
    if lower_seq(tag) == "real_state"@ {
        assert("real_state"@.len() == 10);
        assert("bitcoin"@.len() == 7);
        assert("litecoin"@.len() == 8);
        assert("ethereum"@.len() == 8);
        assert("dogecoin"@.len() == 8);
        assert(lower_seq(tag).len() == 10);
        assert(lower_seq(tag) != "bitcoin"@);
        assert(lower_seq(tag) != "litecoin"@);
        assert(lower_seq(tag) != "ethereum"@);
        assert(lower_seq(tag) != "dogecoin"@);
        assert(asset_type_of(tag, data)->Ok_0 is RealState);
    }
}

/// Law: attaching a purchase record and reading the entrance amount
/// back gives exactly the attached amount when the purchase currency
/// matches the owner's reporting currency. That attaching a second
/// record fails and leaves the asset unchanged is part of
/// `Asset::purchase`'s own contract.
pub proof fn lemma_entrance_after_purchase(
    asset: Asset,
    settled_at: EpochMillis,
    amount: u128,
    currency: FiatCurrency,
)
    requires
        asset.buy == Some(
            Buy { transaction: Transaction::FiatCash { amount, currency }, settled_at },
        ),
        asset.owner_settings.fiat_currency == currency,
    ensures
        spec_asset_entrance(asset) == Ok::<u128, AppErrors>(amount),
{
}

} // verus!
