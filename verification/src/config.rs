//! Configuration data: the credential list and the options bundle that the
//! caller loads and hands to the library.

use vstd::prelude::*;

verus! {

/// One credential set for the provider's API, optionally scoped to a set of
/// domain suffixes, and flagged for the production or the sandbox endpoint.
#[derive(Debug, Clone)]
pub struct Account {
    pub username: String,
    pub password: String,
    pub domains: Vec<String>,
    pub ote: bool,
}

/// The small options bundle beside the credentials.
#[derive(Debug, Clone)]
pub struct Options {
    pub no_dns_check: bool,
    pub wait_interval: u64,
    pub dns_server: String,
}

/// The whole configuration: credentials in their configured order, plus options.
#[derive(Debug, Clone)]
pub struct Config {
    pub accounts: Vec<Account>,
    pub options: Options,
}

impl Default for Options {
    fn default() -> (r: Options)
        ensures
            !r.no_dns_check,
            r.wait_interval == 5,
            r.dns_server@ == "8.8.8.8"@,
    {
        Options { no_dns_check: false, wait_interval: 5, dns_server: "8.8.8.8".to_owned() }
    }
}

impl Default for Config {
    fn default() -> (r: Config)
        ensures
            r.accounts@.len() == 0,
            !r.options.no_dns_check,
            r.options.wait_interval == 5,
            r.options.dns_server@ == "8.8.8.8"@,
    {
        Config { accounts: Vec::new(), options: Options::default() }
    }
}

} // verus!
