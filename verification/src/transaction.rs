use vstd::prelude::*;
use crate::models::FiatCurrency;

verus! {

/// The payment that established a position. Only fiat cash exists.
#[derive(Debug, Clone, Copy, PartialEq)]
pub enum Transaction {
    FiatCash { amount: u128, currency: FiatCurrency },
}

} // verus!
