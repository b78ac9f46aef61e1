use vstd::prelude::*;
use crate::config::Config;
use crate::dns::DnsManager;
use crate::reconcile::{Reconciliation, init};
use crate::text::concat;

verus! {

/// Record name of a hostname under the configured domain.
pub open spec fn record_name_of(homename: Seq<char>, domain: Seq<char>) -> Seq<char> {
    homename + "."@ + domain
}

/// Composition of configuration and reconciliation for one request.
pub struct DnsUpdateService;

impl DnsUpdateService {
    /// The provider client of the configured zone and token, and the
    /// reconciliation of `homename`'s records (named `homename.domain`) with
    /// the candidate addresses.
    pub fn maybe_update_dns(homename: &str, ipv4: &str, ipv6: &str, config: &Config) -> (r: (
        DnsManager,
        Reconciliation,
    ))
        ensures
            r.0.zone_id@ == config.cf_zone_id@,
            r.0.token@ == config.cf_api_token@,
            r.1@ == init(homename@, record_name_of(homename@, config.cf_domain@), ipv4@, ipv6@),
    {
        let manager = DnsManager::new(config.cf_zone_id.clone(), config.cf_api_token.clone());
        let mut record_name = concat(homename, ".");
        record_name.append(config.cf_domain.as_str());
        let reconciliation = manager.maybe_update_dns(
            homename,
            record_name.as_str(),
            ipv4,
            ipv6,
        );
        (manager, reconciliation)
    }
}

} // verus!
