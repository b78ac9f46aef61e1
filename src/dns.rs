use vstd::prelude::*;
use crate::text::{concat, str_eq};

verus! {

/// TTL sent with every record: 1 is the provider's "automatic".
pub const DNS_TTL: u32 = 1;

/// The two record types this updater manages.
#[derive(Debug, Clone, Copy, PartialEq, Eq, Structural)]
pub enum RecordType {
    /// IPv4 address record
    A,
    /// IPv6 address record
    AAAA,
}

/// Provider-side name of a record type.
pub open spec fn record_type_text(t: RecordType) -> Seq<char> {
    match t {
        RecordType::A => seq!['A'],
        RecordType::AAAA => seq!['A', 'A', 'A', 'A'],
    }
}

impl RecordType {
    pub fn as_str(&self) -> (r: &'static str)
        ensures
            r@ == record_type_text(*self),
    {
        match self {
            RecordType::A => {
                proof {
                    reveal_strlit("A");
                }
                "A"
            },
            RecordType::AAAA => {
                proof {
                    reveal_strlit("AAAA");
                }
                "AAAA"
            },
        }
    }
}

pub open spec fn opt_view(o: Option<String>) -> Option<Seq<char>> {
    match o {
        Some(s) => Some(s@),
        None => None,
    }
}

pub fn clone_opt(o: &Option<String>) -> (r: Option<String>)
    ensures
        opt_view(r) == opt_view(*o),
{
    match o {
        Some(s) => Some(s.clone()),
        None => None,
    }
}

/// Errors of DNS reconciliation.
#[derive(Debug)]
pub enum DnsError {
    /// The provider rejected a call or could not be reached.
    ApiError(String),
    /// Cached state could not be read back.
    SerializationError(String),
    /// A lookup found no matching record.
    NotFound,
    /// A hostname or record name was malformed.
    InvalidInput(String),
    /// The key-value cache could not be read or written.
    CacheError(String),
}

/// What a `DnsError` holds, as plain values.
pub enum DnsErrorView {
    Api(Seq<char>),
    Serialization(Seq<char>),
    NotFound,
    InvalidInput(Seq<char>),
    Cache(Seq<char>),
}

impl View for DnsError {
    type V = DnsErrorView;

    open spec fn view(&self) -> DnsErrorView {
        match self {
            DnsError::ApiError(m) => DnsErrorView::Api(m@),
            DnsError::SerializationError(m) => DnsErrorView::Serialization(m@),
            DnsError::NotFound => DnsErrorView::NotFound,
            DnsError::InvalidInput(m) => DnsErrorView::InvalidInput(m@),
            DnsError::CacheError(m) => DnsErrorView::Cache(m@),
        }
    }
}

pub open spec fn error_message(e: DnsErrorView) -> Seq<char> {
    match e {
        DnsErrorView::Api(m) => "DNS API error: "@ + m,
        DnsErrorView::Serialization(m) => "Serialization error: "@ + m,
        DnsErrorView::NotFound => "DNS record not found"@,
        DnsErrorView::InvalidInput(m) => "Invalid input: "@ + m,
        DnsErrorView::Cache(m) => "Cache error: "@ + m,
    }
}

impl DnsError {
    pub fn duplicate(&self) -> (r: DnsError)
        ensures
            r@ == self@,
    {
        match self {
            DnsError::ApiError(m) => DnsError::ApiError(m.clone()),
            DnsError::SerializationError(m) => DnsError::SerializationError(m.clone()),
            DnsError::NotFound => DnsError::NotFound,
            DnsError::InvalidInput(m) => DnsError::InvalidInput(m.clone()),
            DnsError::CacheError(m) => DnsError::CacheError(m.clone()),
        }
    }

    /// A line of text suitable for logging.
    pub fn message(&self) -> (r: String)
        ensures
            r@ == error_message(self@),
    {
        match self {
            DnsError::ApiError(m) => concat("DNS API error: ", m.as_str()),
            DnsError::SerializationError(m) => concat("Serialization error: ", m.as_str()),
            DnsError::NotFound => String::from_str("DNS record not found"),
            DnsError::InvalidInput(m) => concat("Invalid input: ", m.as_str()),
            DnsError::CacheError(m) => concat("Cache error: ", m.as_str()),
        }
    }
}

/// Provider record identifiers of one hostname, as kept in the cache.
#[derive(Debug)]
pub struct DnsRecordInfo {
    pub record_name: String,
    pub a_id: Option<String>,
    pub aaaa_id: Option<String>,
}

pub struct InfoView {
    pub record_name: Seq<char>,
    pub a_id: Option<Seq<char>>,
    pub aaaa_id: Option<Seq<char>>,
}

impl View for DnsRecordInfo {
    type V = InfoView;

    open spec fn view(&self) -> InfoView {
        InfoView {
            record_name: self.record_name@,
            a_id: opt_view(self.a_id),
            aaaa_id: opt_view(self.aaaa_id),
        }
    }
}

impl InfoView {
    pub open spec fn id(self, t: RecordType) -> Option<Seq<char>> {
        match t {
            RecordType::A => self.a_id,
            RecordType::AAAA => self.aaaa_id,
        }
    }

    pub open spec fn with_id(self, t: RecordType, id: Seq<char>) -> InfoView {
        match t {
            RecordType::A => InfoView { a_id: Some(id), ..self },
            RecordType::AAAA => InfoView { aaaa_id: Some(id), ..self },
        }
    }
}

pub open spec fn fresh_info(record_name: Seq<char>) -> InfoView {
    InfoView { record_name, a_id: None, aaaa_id: None }
}

impl DnsRecordInfo {
    /// Identifiers of a record name of which no record is known yet.
    pub fn new(record_name: String) -> (r: Self)
        ensures
            r@ == fresh_info(record_name@),
    {
        DnsRecordInfo { record_name, a_id: None, aaaa_id: None }
    }

    pub fn get_id(&self, record_type: RecordType) -> (r: Option<&String>)
        ensures
            match r {
                Some(s) => self@.id(record_type) == Some(s@),
                None => self@.id(record_type) is None,
            },
    {
        match record_type {
            RecordType::A => self.a_id.as_ref(),
            RecordType::AAAA => self.aaaa_id.as_ref(),
        }
    }

    pub fn set_id(&mut self, record_type: RecordType, id: String)
        ensures
            final(self)@ == old(self)@.with_id(record_type, id@),
    {
        match record_type {
            RecordType::A => self.a_id = Some(id),
            RecordType::AAAA => self.aaaa_id = Some(id),
        }
    }

    pub fn duplicate(&self) -> (r: Self)
        ensures
            r@ == self@,
    {
        DnsRecordInfo {
            record_name: self.record_name.clone(),
            a_id: clone_opt(&self.a_id),
            aaaa_id: clone_opt(&self.aaaa_id),
        }
    }
}

/// A record as the provider lists it.
#[derive(Debug)]
pub struct DnsRecord {
    pub id: String,
    pub record_type: String,
    pub name: String,
    pub content: String,
}

/// One error detail of a provider reply.
#[derive(Debug)]
pub struct ApiError {
    pub code: u32,
    pub message: String,
}

/// What the provider answered to one call.
#[derive(Debug)]
pub enum ProviderReply<T> {
    /// The reply's success flag was set; its payload.
    Success(T),
    /// The reply's success flag was clear; its error details.
    Failure(Vec<ApiError>),
    /// No readable reply came back.
    Unreachable(String),
}

pub open spec fn matches_record(r: DnsRecord, name: Seq<char>, t: RecordType) -> bool {
    r.name@ == name && r.record_type@ == record_type_text(t)
}

/// Index of the first record of `recs` with this name and type.
pub open spec fn first_match(recs: Seq<DnsRecord>, name: Seq<char>, t: RecordType) -> Option<int> {
    if exists|i: int| 0 <= i < recs.len() && matches_record(recs[i], name, t) {
        Some(
            choose|i: int|
                0 <= i < recs.len() && matches_record(recs[i], name, t) && forall|j: int|
                    0 <= j < i ==> !matches_record(recs[j], name, t),
        )
    } else {
        None
    }
}

/// Id of the first record of `recs` with this name and type.
pub open spec fn found_id(recs: Seq<DnsRecord>, name: Seq<char>, t: RecordType) -> Option<Seq<char>> {
    match first_match(recs, name, t) {
        Some(i) => Some(recs[i].id@),
        None => None,
    }
}

proof fn lemma_first_match(recs: Seq<DnsRecord>, name: Seq<char>, t: RecordType, i: int)
    requires
        0 <= i < recs.len(),
        matches_record(recs[i], name, t),
        forall|j: int| 0 <= j < i ==> !matches_record(recs[j], name, t),
    ensures
        first_match(recs, name, t) == Some(i),
{
    let k = choose|k: int|
        0 <= k < recs.len() && matches_record(recs[k], name, t) && forall|j: int|
            0 <= j < k ==> !matches_record(recs[j], name, t);
    assert(k == i) by {
        if k < i {
            assert(!matches_record(recs[k], name, t));
        }
        if i < k {
            assert(!matches_record(recs[i], name, t));
        }
    }
}

/// The id of the first listed record whose name and type are exactly these.
pub fn find_existing_record(records: &Vec<DnsRecord>, name: &str, record_type: RecordType) -> (r:
    Option<String>)
    ensures
        opt_view(r) == found_id(records@, name@, record_type),
{
    let tname = record_type.as_str();
    let mut i: usize = 0;
    while i < records.len()
        invariant
            0 <= i <= records.len(),
            tname@ == record_type_text(record_type),
            forall|j: int| 0 <= j < i ==> !matches_record(records@[j], name@, record_type),
        decreases records.len() - i,
    {
        let rec = &records[i];
        if str_eq(rec.name.as_str(), name) && str_eq(rec.record_type.as_str(), tname) {
            proof {
                lemma_first_match(records@, name@, record_type, i as int);
            }
            return Some(rec.id.clone());
        }
        i = i + 1;
    }
    None
}

/// Cache key of a hostname's record identifiers.
pub open spec fn info_key(homename: Seq<char>) -> Seq<char> {
    homename + "_dns_record_id"@
}

/// Cache key of the address last written for a hostname and record type.
pub open spec fn ip_key(homename: Seq<char>, t: RecordType) -> Seq<char> {
    match t {
        RecordType::A => homename + "_v4"@,
        RecordType::AAAA => homename + "_v6"@,
    }
}

/// The three cache keys of one hostname are pairwise distinct.
pub proof fn lemma_keys_distinct(homename: Seq<char>)
    ensures
        info_key(homename) != ip_key(homename, RecordType::A),
        info_key(homename) != ip_key(homename, RecordType::AAAA),
        ip_key(homename, RecordType::A) != ip_key(homename, RecordType::AAAA),
{
    reveal_strlit("_dns_record_id");
    reveal_strlit("_v4");
    reveal_strlit("_v6");
    let n = homename.len() as int;
    assert(info_key(homename)[n + 1] == 'd');
    assert(ip_key(homename, RecordType::A)[n + 1] == 'v');
    assert(ip_key(homename, RecordType::A)[n + 2] == '4');
    assert(ip_key(homename, RecordType::AAAA)[n + 2] == '6');
}

pub fn dns_record_key(homename: &str) -> (r: String)
    ensures
        r@ == info_key(homename@),
{
    concat(homename, "_dns_record_id")
}

pub fn ip_cache_key(homename: &str, record_type: RecordType) -> (r: String)
    ensures
        r@ == ip_key(homename@, record_type),
{
    match record_type {
        RecordType::A => concat(homename, "_v4"),
        RecordType::AAAA => concat(homename, "_v6"),
    }
}

/// One call to the provider's record API, before it is framed as a request.
#[derive(Debug)]
pub enum ProviderCall {
    /// List the records of one name and type.
    List { record_type: RecordType, name: String },
    /// Create a record with this content.
    Create { record_type: RecordType, name: String, content: String },
    /// Overwrite the record of this id.
    Update { id: String, record_type: RecordType, name: String, content: String },
}

pub enum CallView {
    List { record_type: RecordType, name: Seq<char> },
    Create { record_type: RecordType, name: Seq<char>, content: Seq<char> },
    Update { id: Seq<char>, record_type: RecordType, name: Seq<char>, content: Seq<char> },
}

impl View for ProviderCall {
    type V = CallView;

    open spec fn view(&self) -> CallView {
        match self {
            ProviderCall::List { record_type, name } => CallView::List {
                record_type: *record_type,
                name: name@,
            },
            ProviderCall::Create { record_type, name, content } => CallView::Create {
                record_type: *record_type,
                name: name@,
                content: content@,
            },
            ProviderCall::Update { id, record_type, name, content } => CallView::Update {
                id: id@,
                record_type: *record_type,
                name: name@,
                content: content@,
            },
        }
    }
}

#[derive(Debug, Clone, Copy, PartialEq, Eq, Structural)]
pub enum HttpMethod {
    Get,
    Post,
    Put,
}

/// JSON body of a create or update call.
#[derive(Debug)]
pub struct RecordBody {
    pub record_type: String,
    pub name: String,
    pub content: String,
    pub ttl: u32,
    pub proxied: bool,
}

/// An authenticated request to the provider, ready to be sent.
#[derive(Debug)]
pub struct ApiRequest {
    pub method: HttpMethod,
    pub url: String,
    /// Value of the `Authorization` header.
    pub authorization: String,
    pub body: Option<RecordBody>,
}

pub open spec fn api_base() -> Seq<char> {
    "https://api.cloudflare.com/client/v4"@
}

/// URL of a zone's record collection.
pub open spec fn records_url(zone_id: Seq<char>) -> Seq<char> {
    api_base() + "/zones/"@ + zone_id + "/dns_records"@
}

pub open spec fn call_url(zone_id: Seq<char>, call: CallView) -> Seq<char> {
    match call {
        CallView::List { record_type, name } => records_url(zone_id) + "?name="@ + name
            + "&type="@ + record_type_text(record_type),
        CallView::Create { .. } => records_url(zone_id),
        CallView::Update { id, .. } => records_url(zone_id) + "/"@ + id,
    }
}

pub open spec fn call_method(call: CallView) -> HttpMethod {
    match call {
        CallView::List { .. } => HttpMethod::Get,
        CallView::Create { .. } => HttpMethod::Post,
        CallView::Update { .. } => HttpMethod::Put,
    }
}

/// The body a create or update call carries: fixed TTL, never proxied.
pub open spec fn body_matches(body: Option<RecordBody>, call: CallView) -> bool {
    match call {
        CallView::List { .. } => body is None,
        CallView::Create { record_type, name, content } | CallView::Update {
            record_type,
            name,
            content,
            ..
        } => match body {
            Some(b) => b.record_type@ == record_type_text(record_type) && b.name@ == name
                && b.content@ == content && b.ttl == DNS_TTL && !b.proxied,
            None => false,
        },
    }
}

fn record_body(record_type: RecordType, name: &String, content: &String) -> (r: RecordBody)
    ensures
        r.record_type@ == record_type_text(record_type),
        r.name@ == name@,
        r.content@ == content@,
        r.ttl == DNS_TTL,
        !r.proxied,
{
    RecordBody {
        record_type: String::from_str(record_type.as_str()),
        name: name.clone(),
        content: content.clone(),
        ttl: DNS_TTL,
        proxied: false,
    }
}

/// Frames provider calls for one zone, authenticated with one token.
pub struct DnsManager {
    pub zone_id: String,
    pub token: String,
}

impl DnsManager {
    pub fn new(zone_id: String, token: String) -> (r: Self)
        ensures
            r.zone_id@ == zone_id@,
            r.token@ == token@,
    {
        DnsManager { zone_id, token }
    }

    fn records_url(&self) -> (r: String)
        ensures
            r@ == records_url(self.zone_id@),
    {
        let mut u = String::from_str("https://api.cloudflare.com/client/v4");
        u.append("/zones/");
        u.append(self.zone_id.as_str());
        u.append("/dns_records");
        u
    }

    /// The request that performs `call`: bearer token, URL, method and body.
    pub fn request_for(&self, call: &ProviderCall) -> (r: ApiRequest)
        ensures
            r.authorization@ == "Bearer "@ + self.token@,
            r.url@ == call_url(self.zone_id@, call@),
            r.method == call_method(call@),
            body_matches(r.body, call@),
    {
        let authorization = concat("Bearer ", self.token.as_str());
        let mut url = self.records_url();
        match call {
            ProviderCall::List { record_type, name } => {
                url.append("?name=");
                url.append(name.as_str());
                url.append("&type=");
                url.append(record_type.as_str());
                ApiRequest { method: HttpMethod::Get, url, authorization, body: None }
            },
            ProviderCall::Create { record_type, name, content } => {
                let body = record_body(*record_type, name, content);
                ApiRequest { method: HttpMethod::Post, url, authorization, body: Some(body) }
            },
            ProviderCall::Update { id, record_type, name, content } => {
                url.append("/");
                url.append(id.as_str());
                let body = record_body(*record_type, name, content);
                ApiRequest { method: HttpMethod::Put, url, authorization, body: Some(body) }
            },
        }
    }
}

} // verus!
