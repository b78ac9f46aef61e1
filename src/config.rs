use vstd::prelude::*;

verus! {

/// Settings of the updater, read from its environment by the caller.
pub struct Config {
    /// Token that clients must present; requests are refused without one.
    pub api_token: Option<String>,
    /// Provider zone where DNS records are managed
    pub cf_zone_id: String,
    /// Provider token for DNS operations
    pub cf_api_token: String,
    /// Domain appended to hostnames to name their records
    pub cf_domain: String,
}

} // verus!
