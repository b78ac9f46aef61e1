use std::collections::HashMap;

use dyndns::config::Config;
use dyndns::dns::{
    ApiError, DnsError, DnsManager, DnsRecord, DnsRecordInfo, HttpMethod, ProviderCall,
    ProviderReply, RecordType,
};
use dyndns::reconcile::{Action, Event, Reconciliation};
use dyndns::service::DnsUpdateService;

/// An in-memory cache and provider that log every operation.
struct World {
    ips: HashMap<String, String>,
    infos: HashMap<String, DnsRecordInfo>,
    records: Vec<DnsRecord>,
    failing: Vec<RecordType>,
    refuse_changes: Vec<RecordType>,
    next_id: u32,
    log: Vec<String>,
}

fn kind_text(t: RecordType) -> &'static str {
    t.as_str()
}

impl World {
    fn new() -> World {
        World {
            ips: HashMap::new(),
            infos: HashMap::new(),
            records: Vec::new(),
            failing: Vec::new(),
            refuse_changes: Vec::new(),
            next_id: 1,
            log: Vec::new(),
        }
    }

    fn add_record(&mut self, id: &str, t: RecordType, name: &str, content: &str) {
        self.records.push(DnsRecord {
            id: id.to_string(),
            record_type: kind_text(t).to_string(),
            name: name.to_string(),
            content: content.to_string(),
        });
    }

    fn failure() -> Vec<ApiError> {
        vec![ApiError { code: 1004, message: "rejected".to_string() }]
    }

    fn perform(&mut self, action: Action) -> Event {
        match action {
            Action::LoadInfo { key } => {
                self.log.push(format!("get {}", key));
                Event::InfoLoaded(Ok(self.infos.get(&key).map(|i| i.duplicate())))
            }
            Action::SaveInfo { key, info } => {
                self.log.push(format!(
                    "put {} {} {:?} {:?}",
                    key, info.record_name, info.a_id, info.aaaa_id
                ));
                self.infos.insert(key, info);
                Event::Saved(Ok(()))
            }
            Action::LoadIp { key } => {
                self.log.push(format!("get {}", key));
                Event::IpLoaded(Ok(self.ips.get(&key).cloned()))
            }
            Action::SaveIp { key, ip } => {
                self.log.push(format!("put {} {}", key, ip));
                self.ips.insert(key, ip);
                Event::Saved(Ok(()))
            }
            Action::Call(ProviderCall::List { record_type, name }) => {
                self.log.push(format!("list {} {}", kind_text(record_type), name));
                if self.failing.contains(&record_type) {
                    return Event::Listed(ProviderReply::Failure(World::failure()));
                }
                let found = self
                    .records
                    .iter()
                    .filter(|r| r.name == name && r.record_type == kind_text(record_type))
                    .map(|r| DnsRecord {
                        id: r.id.clone(),
                        record_type: r.record_type.clone(),
                        name: r.name.clone(),
                        content: r.content.clone(),
                    })
                    .collect();
                Event::Listed(ProviderReply::Success(found))
            }
            Action::Call(ProviderCall::Create { record_type, name, content }) => {
                self.log.push(format!("create {} {} {}", kind_text(record_type), name, content));
                if self.failing.contains(&record_type) || self.refuse_changes.contains(&record_type) {
                    return Event::Created(ProviderReply::Failure(World::failure()));
                }
                let id = format!("id{}", self.next_id);
                self.next_id += 1;
                self.add_record(&id, record_type, &name, &content);
                Event::Created(ProviderReply::Success(Some(id)))
            }
            Action::Call(ProviderCall::Update { id, record_type, name, content }) => {
                self.log.push(format!("update {} {} {} {}", id, kind_text(record_type), name, content));
                if self.failing.contains(&record_type) {
                    return Event::Updated(ProviderReply::Failure(World::failure()));
                }
                for r in self.records.iter_mut() {
                    if r.id == id {
                        r.content = content.clone();
                    }
                }
                Event::Updated(ProviderReply::Success(()))
            }
            Action::Done(_) => panic!("a finished reconciliation has nothing to perform"),
        }
    }

    fn run(&mut self, mut rec: Reconciliation) -> Result<(), DnsError> {
        loop {
            match rec.action() {
                Action::Done(r) => return r,
                action => {
                    let event = self.perform(action);
                    rec.handle(event);
                }
            }
        }
    }

    fn reconcile(&mut self, homename: &str, ipv4: &str, ipv6: &str) -> Result<(), DnsError> {
        let (_, rec) = DnsUpdateService::maybe_update_dns(homename, ipv4, ipv6, &config());
        self.run(rec)
    }

    fn mutations(&self) -> usize {
        self.log.iter().filter(|l| l.starts_with("create") || l.starts_with("update")).count()
    }

    fn take_log(&mut self) -> Vec<String> {
        std::mem::take(&mut self.log)
    }
}

fn config() -> Config {
    Config {
        api_token: Some("secret".to_string()),
        cf_zone_id: "zone1".to_string(),
        cf_api_token: "cf-token".to_string(),
        cf_domain: "example.com".to_string(),
    }
}

fn cached_info(id_a: Option<&str>, id_aaaa: Option<&str>) -> DnsRecordInfo {
    DnsRecordInfo {
        record_name: "home.example.com".to_string(),
        a_id: id_a.map(|s| s.to_string()),
        aaaa_id: id_aaaa.map(|s| s.to_string()),
    }
}

#[test]
fn first_reconciliation_creates_and_caches() {
    let mut w = World::new();
    assert!(w.reconcile("home", "203.0.113.5", "").is_ok());
    assert_eq!(
        w.take_log(),
        vec![
            "get home_dns_record_id",
            "list A home.example.com",
            "list AAAA home.example.com",
            "put home_dns_record_id home.example.com None None",
            "get home_v4",
            "create A home.example.com 203.0.113.5",
            "put home_dns_record_id home.example.com Some(\"id1\") None",
            "put home_v4 203.0.113.5",
        ]
    );
    let info = w.infos.get("home_dns_record_id").unwrap();
    assert_eq!(info.record_name, "home.example.com");
    assert_eq!(info.a_id.as_deref(), Some("id1"));
    assert_eq!(info.aaaa_id, None);
    assert_eq!(w.ips.get("home_v4").map(|s| s.as_str()), Some("203.0.113.5"));
    assert!(w.ips.get("home_v6").is_none());
}

#[test]
fn second_reconciliation_is_a_no_op() {
    let mut w = World::new();
    assert!(w.reconcile("home", "203.0.113.5", "2001:db8::1").is_ok());
    assert_eq!(w.mutations(), 2);
    w.take_log();
    assert!(w.reconcile("home", "203.0.113.5", "2001:db8::1").is_ok());
    assert_eq!(w.mutations(), 0);
    assert_eq!(w.take_log(), vec!["get home_dns_record_id", "get home_v4", "get home_v6"]);
}

#[test]
fn unchanged_address_skips_provider() {
    let mut w = World::new();
    w.infos.insert("home_dns_record_id".to_string(), cached_info(Some("rec-a"), None));
    w.ips.insert("home_v4".to_string(), "1.2.3.4".to_string());
    assert!(w.reconcile("home", "1.2.3.4", "").is_ok());
    assert_eq!(w.take_log(), vec!["get home_dns_record_id", "get home_v4"]);
}

#[test]
fn changed_address_updates_once_then_caches() {
    let mut w = World::new();
    w.infos.insert("home_dns_record_id".to_string(), cached_info(Some("rec-a"), None));
    w.ips.insert("home_v4".to_string(), "1.2.3.4".to_string());
    assert!(w.reconcile("home", "1.2.3.5", "").is_ok());
    assert_eq!(
        w.take_log(),
        vec![
            "get home_dns_record_id",
            "get home_v4",
            "update rec-a A home.example.com 1.2.3.5",
            "put home_v4 1.2.3.5",
        ]
    );
}

#[test]
fn rejected_update_leaves_cache_alone() {
    let mut w = World::new();
    w.infos.insert("home_dns_record_id".to_string(), cached_info(Some("rec-a"), None));
    w.ips.insert("home_v4".to_string(), "1.2.3.4".to_string());
    w.failing.push(RecordType::A);
    let r = w.reconcile("home", "1.2.3.5", "");
    match r {
        Err(DnsError::ApiError(m)) => assert_eq!(m, "Failed to update DNS record: rejected"),
        other => panic!("unexpected outcome {:?}", other),
    }
    assert_eq!(w.ips.get("home_v4").map(|s| s.as_str()), Some("1.2.3.4"));
}

#[test]
fn ipv4_failure_does_not_block_ipv6() {
    let mut w = World::new();
    w.failing.push(RecordType::A);
    w.infos.insert("home_dns_record_id".to_string(), cached_info(None, None));
    let r = w.reconcile("home", "203.0.113.5", "2001:db8::1");
    assert!(matches!(r, Err(DnsError::ApiError(_))));
    let log = w.take_log();
    assert!(log.contains(&"create A home.example.com 203.0.113.5".to_string()));
    assert!(log.contains(&"create AAAA home.example.com 2001:db8::1".to_string()));
    assert!(w.ips.get("home_v4").is_none());
    assert_eq!(w.ips.get("home_v6").map(|s| s.as_str()), Some("2001:db8::1"));
    let info = w.infos.get("home_dns_record_id").unwrap();
    assert_eq!(info.a_id, None);
    assert_eq!(info.aaaa_id.as_deref(), Some("id1"));
}

#[test]
fn ipv6_listing_failure_does_not_block_ipv4() {
    let mut w = World::new();
    w.failing.push(RecordType::AAAA);
    let r = w.reconcile("home", "203.0.113.5", "2001:db8::1");
    match r {
        Err(DnsError::ApiError(m)) => assert_eq!(m, "Failed to list DNS records: rejected"),
        other => panic!("unexpected outcome {:?}", other),
    }
    let log = w.take_log();
    assert!(log.contains(&"create A home.example.com 203.0.113.5".to_string()));
    assert!(!log.iter().any(|l| l.starts_with("create AAAA")));
    // identifiers are not cached while one type's listing is unknown
    assert!(w.infos.get("home_dns_record_id").is_none());
    assert_eq!(w.ips.get("home_v4").map(|s| s.as_str()), Some("203.0.113.5"));
}

#[test]
fn cache_miss_adopts_existing_records() {
    let mut w = World::new();
    w.add_record("other", RecordType::A, "other.example.com", "9.9.9.9");
    w.add_record("rec-a", RecordType::A, "home.example.com", "1.1.1.1");
    w.add_record("rec-aaaa", RecordType::AAAA, "home.example.com", "::1");
    assert!(w.reconcile("home", "203.0.113.5", "2001:db8::1").is_ok());
    let log = w.take_log();
    assert!(!log.iter().any(|l| l.starts_with("create")));
    assert!(log.contains(&"update rec-a A home.example.com 203.0.113.5".to_string()));
    assert!(log.contains(&"update rec-aaaa AAAA home.example.com 2001:db8::1".to_string()));
    let info = w.infos.get("home_dns_record_id").unwrap();
    assert_eq!(info.a_id.as_deref(), Some("rec-a"));
    assert_eq!(info.aaaa_id.as_deref(), Some("rec-aaaa"));
    assert_eq!(w.records.len(), 3);
}

#[test]
fn empty_addresses_touch_nothing_per_type() {
    let mut w = World::new();
    w.infos.insert("home_dns_record_id".to_string(), cached_info(Some("rec-a"), Some("rec-aaaa")));
    assert!(w.reconcile("home", "", "").is_ok());
    assert_eq!(w.take_log(), vec!["get home_dns_record_id"]);
    assert!(w.ips.is_empty());
}

#[test]
fn failed_create_writes_nothing_after_it() {
    let mut w = World::new();
    w.refuse_changes.push(RecordType::A);
    let r = w.reconcile("home", "203.0.113.5", "");
    match r {
        Err(DnsError::ApiError(m)) => assert_eq!(m, "Failed to create DNS record: rejected"),
        other => panic!("unexpected outcome {:?}", other),
    }
    let log = w.take_log();
    let create = log.iter().position(|l| l.starts_with("create A")).unwrap();
    assert!(log[create + 1..].iter().all(|l| !l.starts_with("put")));
    assert!(w.ips.is_empty());
    assert_eq!(w.infos.get("home_dns_record_id").unwrap().a_id, None);
}

#[test]
fn create_without_id_ends_quietly() {
    let manager = DnsManager::new("zone1".to_string(), "t".to_string());
    let mut rec = manager.maybe_update_dns("home", "home.example.com", "1.2.3.4", "");
    rec.handle(Event::InfoLoaded(Ok(Some(cached_info(None, None)))));
    rec.handle(Event::IpLoaded(Ok(None)));
    assert!(matches!(rec.action(), Action::Call(ProviderCall::Create { .. })));
    rec.handle(Event::Created(ProviderReply::Success(None)));
    // nothing is cached, so the next run tries again
    assert!(matches!(rec.action(), Action::Done(Ok(()))));
    assert_eq!(rec.record_info().a_id, None);
}

#[test]
fn unreadable_cache_falls_back_to_provider() {
    let manager = DnsManager::new("zone1".to_string(), "t".to_string());
    let mut rec = manager.maybe_update_dns("home", "home.example.com", "1.2.3.4", "");
    rec.handle(Event::InfoLoaded(Err(DnsError::SerializationError("bad json".to_string()))));
    assert!(matches!(
        rec.action(),
        Action::Call(ProviderCall::List { record_type: RecordType::A, .. })
    ));
}

#[test]
fn unreadable_address_forces_update() {
    let manager = DnsManager::new("zone1".to_string(), "t".to_string());
    let mut rec = manager.maybe_update_dns("home", "home.example.com", "1.2.3.4", "");
    rec.handle(Event::InfoLoaded(Ok(Some(cached_info(Some("rec-a"), None)))));
    rec.handle(Event::IpLoaded(Err(DnsError::CacheError("down".to_string()))));
    match rec.action() {
        Action::Call(ProviderCall::Update { id, content, .. }) => {
            assert_eq!(id, "rec-a");
            assert_eq!(content, "1.2.3.4");
        }
        other => panic!("unexpected action {:?}", other),
    }
}

#[test]
fn cache_write_failure_is_reported() {
    let manager = DnsManager::new("zone1".to_string(), "t".to_string());
    let mut rec = manager.maybe_update_dns("home", "home.example.com", "1.2.3.4", "");
    rec.handle(Event::InfoLoaded(Ok(Some(cached_info(Some("rec-a"), None)))));
    rec.handle(Event::IpLoaded(Ok(None)));
    rec.handle(Event::Updated(ProviderReply::Success(())));
    rec.handle(Event::Saved(Err(DnsError::CacheError("full".to_string()))));
    match rec.action() {
        Action::Done(Err(e)) => assert_eq!(e.message(), "Cache error: full"),
        other => panic!("unexpected action {:?}", other),
    }
}

#[test]
fn unreachable_provider_is_reported() {
    let manager = DnsManager::new("zone1".to_string(), "t".to_string());
    let mut rec = manager.maybe_update_dns("home", "home.example.com", "1.2.3.4", "");
    rec.handle(Event::InfoLoaded(Ok(Some(cached_info(Some("rec-a"), None)))));
    rec.handle(Event::IpLoaded(Ok(None)));
    rec.handle(Event::Updated(ProviderReply::Unreachable("timeout".to_string())));
    match rec.action() {
        Action::Done(Err(e)) => {
            assert_eq!(e.message(), "DNS API error: Failed to update DNS record: timeout")
        }
        other => panic!("unexpected action {:?}", other),
    }
}

#[test]
fn several_provider_errors_are_joined() {
    let manager = DnsManager::new("zone1".to_string(), "t".to_string());
    let mut rec = manager.maybe_update_dns("home", "home.example.com", "1.2.3.4", "");
    rec.handle(Event::InfoLoaded(Ok(None)));
    rec.handle(Event::Listed(ProviderReply::Failure(vec![
        ApiError { code: 9109, message: "bad token".to_string() },
        ApiError { code: 7003, message: "no zone".to_string() },
    ])));
    rec.handle(Event::Listed(ProviderReply::Success(Vec::new())));
    // the A listing failed, so its path is skipped and nothing is left to do
    match rec.action() {
        Action::Done(Err(DnsError::ApiError(m))) => {
            assert_eq!(m, "Failed to list DNS records: bad token; no zone")
        }
        other => panic!("unexpected action {:?}", other),
    }
}

#[test]
fn unexpected_event_ends_reconciliation() {
    let manager = DnsManager::new("zone1".to_string(), "t".to_string());
    let mut rec = manager.maybe_update_dns("home", "home.example.com", "1.2.3.4", "");
    rec.handle(Event::Saved(Ok(())));
    assert!(rec.is_finished());
    match rec.action() {
        Action::Done(Err(e)) => assert_eq!(e.message(), "Invalid input: unexpected event"),
        other => panic!("unexpected action {:?}", other),
    }
}

#[test]
fn invalid_homename_is_rejected_before_any_io() {
    let manager = DnsManager::new("zone1".to_string(), "t".to_string());
    let rec = manager.maybe_update_dns("home!", "home!.example.com", "1.2.3.4", "");
    match rec.action() {
        Action::Done(Err(DnsError::InvalidInput(m))) => assert_eq!(m, "invalid homename"),
        other => panic!("unexpected action {:?}", other),
    }
    let rec = manager.maybe_update_dns("home", "", "1.2.3.4", "");
    match rec.action() {
        Action::Done(Err(DnsError::InvalidInput(m))) => assert_eq!(m, "empty record name"),
        other => panic!("unexpected action {:?}", other),
    }
}

#[test]
fn record_ids_lookup_caches_what_it_found() {
    let mut w = World::new();
    w.add_record("rec-a", RecordType::A, "home.example.com", "1.1.1.1");
    let manager = DnsManager::new("zone1".to_string(), "t".to_string());
    let rec = manager.get_or_create_record_ids("home", "home.example.com");
    let mut rec = rec;
    loop {
        match rec.action() {
            Action::Done(r) => {
                assert!(r.is_ok());
                break;
            }
            action => {
                let e = w.perform(action);
                rec.handle(e);
            }
        }
    }
    assert_eq!(rec.record_info().a_id.as_deref(), Some("rec-a"));
    assert_eq!(rec.record_info().aaaa_id, None);
    assert_eq!(w.mutations(), 0);
    assert!(w.infos.get("home_dns_record_id").is_some());
}

#[test]
fn requests_are_framed_for_the_zone() {
    let manager = DnsManager::new("zone1".to_string(), "cf-token".to_string());
    let list = manager.request_for(&ProviderCall::List {
        record_type: RecordType::AAAA,
        name: "home.example.com".to_string(),
    });
    assert_eq!(list.method, HttpMethod::Get);
    assert_eq!(
        list.url,
        "https://api.cloudflare.com/client/v4/zones/zone1/dns_records?name=home.example.com&type=AAAA"
    );
    assert_eq!(list.authorization, "Bearer cf-token");
    assert!(list.body.is_none());

    let create = manager.request_for(&ProviderCall::Create {
        record_type: RecordType::A,
        name: "home.example.com".to_string(),
        content: "203.0.113.5".to_string(),
    });
    assert_eq!(create.method, HttpMethod::Post);
    assert_eq!(create.url, "https://api.cloudflare.com/client/v4/zones/zone1/dns_records");
    let body = create.body.unwrap();
    assert_eq!(body.record_type, "A");
    assert_eq!(body.name, "home.example.com");
    assert_eq!(body.content, "203.0.113.5");
    assert_eq!(body.ttl, 1);
    assert!(!body.proxied);

    let update = manager.request_for(&ProviderCall::Update {
        id: "rec-a".to_string(),
        record_type: RecordType::A,
        name: "home.example.com".to_string(),
        content: "1.2.3.5".to_string(),
    });
    assert_eq!(update.method, HttpMethod::Put);
    assert_eq!(update.url, "https://api.cloudflare.com/client/v4/zones/zone1/dns_records/rec-a");
}

#[test]
fn service_builds_record_name_and_manager() {
    let (manager, rec) = DnsUpdateService::maybe_update_dns("home", "1.2.3.4", "", &config());
    assert_eq!(manager.zone_id, "zone1");
    assert_eq!(manager.token, "cf-token");
    assert_eq!(rec.record_info().record_name, "home.example.com");
}

#[test]
fn error_messages() {
    assert_eq!(DnsError::ApiError("x".to_string()).message(), "DNS API error: x");
    assert_eq!(DnsError::SerializationError("y".to_string()).message(), "Serialization error: y");
    assert_eq!(DnsError::NotFound.message(), "DNS record not found");
    assert_eq!(DnsError::InvalidInput("z".to_string()).message(), "Invalid input: z");
}

#[test]
fn first_matching_record_wins() {
    let recs = vec![
        DnsRecord {
            id: "1".to_string(),
            record_type: "AAAA".to_string(),
            name: "h.example.com".to_string(),
            content: "::1".to_string(),
        },
        DnsRecord {
            id: "2".to_string(),
            record_type: "A".to_string(),
            name: "h.example.com".to_string(),
            content: "1.1.1.1".to_string(),
        },
        DnsRecord {
            id: "3".to_string(),
            record_type: "A".to_string(),
            name: "h.example.com".to_string(),
            content: "2.2.2.2".to_string(),
        },
    ];
    let found = dyndns::dns::find_existing_record(&recs, "h.example.com", RecordType::A);
    assert_eq!(found.as_deref(), Some("2"));
    let none = dyndns::dns::find_existing_record(&recs, "x.example.com", RecordType::A);
    assert_eq!(none, None);
}
