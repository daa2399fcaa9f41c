//! The owner: identity, settings, and a password hash produced by an
//! outside key-derivation function.

use vstd::prelude::*;
use scrypt::Scrypt;
use scrypt::password_hash::{PasswordHasher, SaltString};
use scrypt::password_hash::rand_core::OsRng;
use crate::errors::AppErrors;
use crate::models::{AppEnv, FiatCurrency};
use crate::types::{HashString, UserName};

verus! {

/// The owner's settings; at minimum the fiat currency reports are
/// denominated in.
#[derive(Debug, Clone, Copy, PartialEq, Eq, Structural)]
pub struct UserSettings {
    pub fiat_currency: FiatCurrency,
}

impl Default for UserSettings {
    fn default() -> (r: UserSettings)
        ensures
            r.fiat_currency == FiatCurrency::MXN,
    {
        UserSettings { fiat_currency: FiatCurrency::MXN }
    }
}

/// The owner of a portfolio.
#[derive(Debug, Clone)]
pub struct User {
    pub name: UserName,
    pub env: AppEnv,
    pub password_hash: String,
    pub app_state_hash: Option<HashString>,
}

/// Relies on scrypt's `Scrypt.hash_password` with a salt drawn from
/// `SaltString::generate(&mut OsRng)`: the hash depends on that random
/// salt, so nothing is promised of the returned string.
#[verifier::external_body]
fn scrypt_hash_password(password: &str) -> (r: Option<String>) {
    let salt = SaltString::generate(&mut OsRng);
    match Scrypt.hash_password(password.as_bytes(), &salt) {
        Ok(h) => Some(h.to_string()),
        Err(_) => None,
    }
}

impl User {
    /// The owner's name.
    pub open spec fn spec_name(&self) -> Seq<char> {
        self.name@
    }

    /// The environment the owner was created under.
    pub open spec fn spec_env(&self) -> AppEnv {
        self.env
    }

    /// Creates an owner, hashing the password with scrypt under a
    /// fresh random salt.
    pub fn new(name: &str, password: &str, env: AppEnv) -> (r: Result<User, AppErrors>)
        ensures
            match r {
                Ok(u) => u.spec_name() == name@ && u.spec_env() == env && u.app_state_hash
                    is None,
                Err(e) => e == AppErrors::PasswordHashFailed,
            },
    {
        match scrypt_hash_password(password) {
            Some(password_hash) => Ok(
                User { name: name.to_owned(), env, password_hash, app_state_hash: None },
            ),
            None => Err(AppErrors::PasswordHashFailed),
        }
    }

    /// The owner's name, for display.
    pub fn name(&self) -> (r: &str)
        ensures
            r@ == self.spec_name(),
    {
        self.name.as_str()
    }

    /// The environment the owner runs under.
    pub fn env(&self) -> (r: AppEnv)
        ensures
            r == self.spec_env(),
    {
        self.env
    }
}

} // verus!
