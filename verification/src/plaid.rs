//! The environments of the banking-data provider.

use vstd::prelude::*;

verus! {

/// The environment of the banking-data provider that a client talks to.
#[derive(Clone, Copy, Debug, PartialEq, Eq, Structural)]
pub enum PlaidEnvironment {
    Sandbox,
    Development,
    Production,
}

impl PlaidEnvironment {
    /// The address under which the environment is reached.
    pub open spec fn url(self) -> Seq<char> {
        match self {
            PlaidEnvironment::Sandbox => "https://sandbox.plaid.com"@,
            PlaidEnvironment::Development => "https://development.plaid.com"@,
            PlaidEnvironment::Production => "https://production.plaid.com"@,
        }
    }

    /// The address under which the environment is reached.
    pub fn base_url(&self) -> (url: &'static str)
        ensures
            url@ == self.url(),
    {
        match self {
            PlaidEnvironment::Sandbox => "https://sandbox.plaid.com",
            PlaidEnvironment::Development => "https://development.plaid.com",
            PlaidEnvironment::Production => "https://production.plaid.com",
        }
    }
}

} // verus!
