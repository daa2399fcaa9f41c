//! A personal asset manager: a typed asset-class model, overflow-safe
//! proportional pricing, purchase records, and a portfolio aggregate
//! that values holdings against a reference price sheet.

pub mod app;
pub mod asset;
pub mod errors;
pub mod laws;
pub mod models;
pub mod now;
pub mod transaction;
pub mod types;
pub mod user;
pub mod utils;
pub mod wide;
