//! The reconciliation engine as a state machine.
//!
//! The engine never performs I/O itself: `action` names the next cache or
//! provider operation, the caller performs it and hands the outcome back to
//! `handle` as an `Event`, until the action is `Done`.
use vstd::prelude::*;
use crate::dns::{
    ApiError, CallView, DnsError, DnsErrorView, DnsManager, DnsRecord, DnsRecordInfo, InfoView,
    ProviderCall,
    ProviderReply, RecordType, dns_record_key, find_existing_record, found_id, fresh_info,
    info_key, ip_cache_key, ip_key,
};
use crate::request::{RequestContext, valid_homename};
use crate::text::{concat, str_eq};

verus! {

/// Where a reconciliation stands: each phase but `Finished` awaits one event.
#[derive(Debug, Clone, Copy, PartialEq, Eq, Structural)]
pub enum Phase {
    /// Awaiting the cached record identifiers.
    LoadingInfo,
    /// Awaiting the provider's list of records of this type.
    Listing(RecordType),
    /// Awaiting the write of identifiers found at the provider.
    SavingDiscovered,
    /// Awaiting the cached last-applied address of this type.
    LoadingIp(RecordType),
    /// Awaiting the provider's answer to a create or update of this type.
    Mutating(RecordType),
    /// Awaiting the write of identifiers that hold a newly created record.
    SavingCreated(RecordType),
    /// Awaiting the write of the address just applied for this type.
    SavingIp(RecordType),
    Finished,
}

/// Outcome of the operation an `Action` asked for.
#[derive(Debug)]
pub enum Event {
    /// Cached identifiers: absent, unreadable, or present.
    InfoLoaded(Result<Option<DnsRecordInfo>, DnsError>),
    Listed(ProviderReply<Vec<DnsRecord>>),
    /// Cached last-applied address: absent, unreadable, or present.
    IpLoaded(Result<Option<String>, DnsError>),
    /// The id of the created record, if the reply held one.
    Created(ProviderReply<Option<String>>),
    Updated(ProviderReply<()>),
    /// Outcome of a cache write.
    Saved(Result<(), DnsError>),
}

/// The next operation a reconciliation asks for.
#[derive(Debug)]
pub enum Action {
    LoadInfo { key: String },
    SaveInfo { key: String, info: DnsRecordInfo },
    LoadIp { key: String },
    SaveIp { key: String, ip: String },
    Call(ProviderCall),
    /// Reconciliation is over, with the first error met, if any.
    Done(Result<(), DnsError>),
}

pub enum ActionView {
    LoadInfo { key: Seq<char> },
    SaveInfo { key: Seq<char>, info: InfoView },
    LoadIp { key: Seq<char> },
    SaveIp { key: Seq<char>, ip: Seq<char> },
    Call(CallView),
    Done(Result<(), DnsErrorView>),
}

pub open spec fn result_view(r: Result<(), DnsError>) -> Result<(), DnsErrorView> {
    match r {
        Ok(()) => Ok(()),
        Err(e) => Err(e@),
    }
}

impl View for Action {
    type V = ActionView;

    open spec fn view(&self) -> ActionView {
        match self {
            Action::LoadInfo { key } => ActionView::LoadInfo { key: key@ },
            Action::SaveInfo { key, info } => ActionView::SaveInfo { key: key@, info: info@ },
            Action::LoadIp { key } => ActionView::LoadIp { key: key@ },
            Action::SaveIp { key, ip } => ActionView::SaveIp { key: key@, ip: ip@ },
            Action::Call(c) => ActionView::Call(c@),
            Action::Done(r) => ActionView::Done(result_view(*r)),
        }
    }
}

/// Reconciliation of one hostname's A and AAAA records with candidate addresses.
pub struct Reconciliation {
    homename: String,
    record_name: String,
    ipv4: String,
    ipv6: String,
    info: DnsRecordInfo,
    a_known: bool,
    aaaa_known: bool,
    error: Option<DnsError>,
    phase: Phase,
}

/// A reconciliation's state as plain values.
pub struct RecView {
    pub homename: Seq<char>,
    pub record_name: Seq<char>,
    pub ipv4: Seq<char>,
    pub ipv6: Seq<char>,
    /// Record identifiers as far as they are known.
    pub info: InfoView,
    /// Whether the provider was asked for A records without failure (or never needed to be).
    pub a_known: bool,
    pub aaaa_known: bool,
    /// The first error met.
    pub error: Option<DnsErrorView>,
    pub phase: Phase,
}

pub open spec fn opt_error_view(e: Option<DnsError>) -> Option<DnsErrorView> {
    match e {
        Some(e) => Some(e@),
        None => None,
    }
}

impl View for Reconciliation {
    type V = RecView;

    closed spec fn view(&self) -> RecView {
        RecView {
            homename: self.homename@,
            record_name: self.record_name@,
            ipv4: self.ipv4@,
            ipv6: self.ipv6@,
            info: self.info@,
            a_known: self.a_known,
            aaaa_known: self.aaaa_known,
            error: opt_error_view(self.error),
            phase: self.phase,
        }
    }
}

impl RecView {
    /// The candidate address for a record type.
    pub open spec fn ip(self, t: RecordType) -> Seq<char> {
        match t {
            RecordType::A => self.ipv4,
            RecordType::AAAA => self.ipv6,
        }
    }

    pub open spec fn known(self, t: RecordType) -> bool {
        match t {
            RecordType::A => self.a_known,
            RecordType::AAAA => self.aaaa_known,
        }
    }

    pub open spec fn with_phase(self, p: Phase) -> RecView {
        RecView { phase: p, ..self }
    }

    /// Keeps the first error met.
    pub open spec fn with_error(self, e: DnsErrorView) -> RecView {
        RecView { error: if self.error is Some { self.error } else { Some(e) }, ..self }
    }

    pub open spec fn unknown(self, t: RecordType) -> RecView {
        match t {
            RecordType::A => RecView { a_known: false, ..self },
            RecordType::AAAA => RecView { aaaa_known: false, ..self },
        }
    }

    pub open spec fn with_id(self, t: RecordType, id: Seq<char>) -> RecView {
        RecView { info: self.info.with_id(t, id), ..self }
    }
}

/// Details of a failed reply, joined by "; ".
pub open spec fn messages(errs: Seq<ApiError>) -> Seq<char>
    decreases errs.len(),
{
    if errs.len() == 0 {
        Seq::empty()
    } else if errs.len() == 1 {
        errs[0].message@
    } else {
        messages(errs.drop_last()) + "; "@ + errs.last().message@
    }
}

pub open spec fn reply_error<T>(what: Seq<char>, r: ProviderReply<T>) -> DnsErrorView {
    match r {
        ProviderReply::Failure(errs) => DnsErrorView::Api(what + messages(errs@)),
        ProviderReply::Unreachable(m) => DnsErrorView::Api(what + m@),
        ProviderReply::Success(_) => DnsErrorView::Api(what),
    }
}

pub open spec fn list_failed() -> Seq<char> {
    "Failed to list DNS records: "@
}

pub open spec fn create_failed() -> Seq<char> {
    "Failed to create DNS record: "@
}

pub open spec fn update_failed() -> Seq<char> {
    "Failed to update DNS record: "@
}

pub open spec fn unexpected_event() -> Seq<char> {
    "unexpected event"@
}

/// Start of a reconciliation; malformed names end it before any operation.
pub open spec fn init(homename: Seq<char>, record_name: Seq<char>, ipv4: Seq<char>, ipv6: Seq<
    char,
>) -> RecView {
    let s = RecView {
        homename,
        record_name,
        ipv4,
        ipv6,
        info: fresh_info(record_name),
        a_known: true,
        aaaa_known: true,
        error: None,
        phase: Phase::LoadingInfo,
    };
    if !valid_homename(homename) {
        RecView { error: Some(DnsErrorView::InvalidInput("invalid homename"@)), phase: Phase::Finished, ..s }
    } else if record_name.len() == 0 {
        RecView { error: Some(DnsErrorView::InvalidInput("empty record name"@)), phase: Phase::Finished, ..s }
    } else {
        s
    }
}

/// Start of the AAAA path: skipped for an empty address or unknown identifiers.
pub open spec fn begin_aaaa(s: RecView) -> RecView {
    if s.ipv6.len() == 0 || !s.aaaa_known {
        s.with_phase(Phase::Finished)
    } else {
        s.with_phase(Phase::LoadingIp(RecordType::AAAA))
    }
}

/// Start of the A path: skipped for an empty address or unknown identifiers.
pub open spec fn begin_a(s: RecView) -> RecView {
    if s.ipv4.len() == 0 || !s.a_known {
        begin_aaaa(s)
    } else {
        s.with_phase(Phase::LoadingIp(RecordType::A))
    }
}

/// What follows the end of the path of type `t`, successful or not.
pub open spec fn advance(s: RecView, t: RecordType) -> RecView {
    match t {
        RecordType::A => begin_aaaa(s),
        RecordType::AAAA => s.with_phase(Phase::Finished),
    }
}

/// What follows the listing of type `t`: identifiers are cached only when
/// both listings succeeded.
pub open spec fn after_listing(s: RecView, t: RecordType) -> RecView {
    match t {
        RecordType::A => s.with_phase(Phase::Listing(RecordType::AAAA)),
        RecordType::AAAA => if s.a_known && s.aaaa_known {
            s.with_phase(Phase::SavingDiscovered)
        } else {
            begin_a(s)
        },
    }
}

pub open spec fn cached_equal(r: Result<Option<String>, DnsError>, ip: Seq<char>) -> bool {
    match r {
        Ok(Some(v)) => v@ == ip,
        _ => false,
    }
}

pub open spec fn unexpected(s: RecView) -> RecView {
    s.with_error(DnsErrorView::InvalidInput(unexpected_event())).with_phase(Phase::Finished)
}

/// The state that follows `s` once event `e` came in.
pub open spec fn next(s: RecView, e: Event) -> RecView {
    match s.phase {
        Phase::LoadingInfo => match e {
            Event::InfoLoaded(Ok(Some(info))) => begin_a(RecView { info: info@, ..s }),
            Event::InfoLoaded(_) => s.with_phase(Phase::Listing(RecordType::A)),
            _ => unexpected(s),
        },
        Phase::Listing(t) => match e {
            Event::Listed(ProviderReply::Success(recs)) => match found_id(
                recs@,
                s.record_name,
                t,
            ) {
                Some(id) => after_listing(s.with_id(t, id), t),
                None => after_listing(s, t),
            },
            Event::Listed(r) => after_listing(s.unknown(t).with_error(reply_error(list_failed(), r)), t),
            _ => unexpected(s),
        },
        Phase::SavingDiscovered => match e {
            Event::Saved(Ok(())) => begin_a(s),
            Event::Saved(Err(err)) => begin_a(s.with_error(err@)),
            _ => unexpected(s),
        },
        Phase::LoadingIp(t) => match e {
            Event::IpLoaded(r) => if cached_equal(r, s.ip(t)) {
                advance(s, t)
            } else {
                s.with_phase(Phase::Mutating(t))
            },
            _ => unexpected(s),
        },
        Phase::Mutating(t) => match e {
            Event::Updated(r) => if s.info.id(t) is Some {
                match r {
                    ProviderReply::Success(_) => s.with_phase(Phase::SavingIp(t)),
                    _ => advance(s.with_error(reply_error(update_failed(), r)), t),
                }
            } else {
                unexpected(s)
            },
            Event::Created(r) => if s.info.id(t) is None {
                match r {
                    ProviderReply::Success(Some(id)) => if s.a_known && s.aaaa_known {
                        s.with_id(t, id@).with_phase(Phase::SavingCreated(t))
                    } else {
                        s.with_id(t, id@).with_phase(Phase::SavingIp(t))
                    },
                    // The provider accepted the call but named no record: the
                    // path ends, and the next run tries again.
                    ProviderReply::Success(None) => advance(s, t),
                    _ => advance(s.with_error(reply_error(create_failed(), r)), t),
                }
            } else {
                unexpected(s)
            },
            _ => unexpected(s),
        },
        Phase::SavingCreated(t) => match e {
            Event::Saved(Ok(())) => s.with_phase(Phase::SavingIp(t)),
            Event::Saved(Err(err)) => advance(s.with_error(err@), t),
            _ => unexpected(s),
        },
        Phase::SavingIp(t) => match e {
            Event::Saved(Ok(())) => advance(s, t),
            Event::Saved(Err(err)) => advance(s.with_error(err@), t),
            _ => unexpected(s),
        },
        Phase::Finished => s,
    }
}

/// The operation that state `s` awaits.
pub open spec fn pending(s: RecView) -> ActionView {
    match s.phase {
        Phase::LoadingInfo => ActionView::LoadInfo { key: info_key(s.homename) },
        Phase::Listing(t) => ActionView::Call(CallView::List { record_type: t, name: s.record_name }),
        Phase::SavingDiscovered | Phase::SavingCreated(_) => ActionView::SaveInfo {
            key: info_key(s.homename),
            info: s.info,
        },
        Phase::LoadingIp(t) => ActionView::LoadIp { key: ip_key(s.homename, t) },
        Phase::Mutating(t) => match s.info.id(t) {
            Some(id) => ActionView::Call(
                CallView::Update { id, record_type: t, name: s.info.record_name, content: s.ip(t) },
            ),
            None => ActionView::Call(
                CallView::Create { record_type: t, name: s.info.record_name, content: s.ip(t) },
            ),
        },
        Phase::SavingIp(t) => ActionView::SaveIp { key: ip_key(s.homename, t), ip: s.ip(t) },
        Phase::Finished => ActionView::Done(
            match s.error {
                Some(e) => Err(e),
                None => Ok(()),
            },
        ),
    }
}

fn describe_errors(errs: &Vec<ApiError>) -> (r: String)
    ensures
        r@ == messages(errs@),
{
    let mut r = String::new();
    let mut i: usize = 0;
    while i < errs.len()
        invariant
            0 <= i <= errs.len(),
            r@ == messages(errs@.subrange(0, i as int)),
        decreases errs.len() - i,
    {
        let ghost prev = errs@.subrange(0, i as int);
        let ghost cur = errs@.subrange(0, i + 1);
        assert(cur.drop_last() =~= prev);
        if i > 0 {
            r.append("; ");
        } else {
            assert(prev =~= Seq::<ApiError>::empty());
        }
        r.append(errs[i].message.as_str());
        i = i + 1;
    }
    assert(errs@.subrange(0, errs.len() as int) =~= errs@);
    r
}

fn describe_failure<T>(what: &str, r: &ProviderReply<T>) -> (e: DnsError)
    ensures
        e@ == reply_error(what@, *r),
{
    match r {
        ProviderReply::Failure(errs) => {
            let d = describe_errors(errs);
            DnsError::ApiError(concat(what, d.as_str()))
        },
        ProviderReply::Unreachable(m) => DnsError::ApiError(concat(what, m.as_str())),
        ProviderReply::Success(_) => DnsError::ApiError(String::from_str(what)),
    }
}

impl Reconciliation {
    /// Reconciliation of `homename`, whose records are named `record_name`,
    /// with the candidate addresses (an empty one is left alone).
    pub fn new(homename: &str, record_name: &str, ipv4: &str, ipv6: &str) -> (r: Self)
        ensures
            r@ == init(homename@, record_name@, ipv4@, ipv6@),
    {
        let valid = RequestContext::is_valid_homename(homename);
        let empty_name = record_name.unicode_len() == 0;
        let mut r = Reconciliation {
            homename: String::from_str(homename),
            record_name: String::from_str(record_name),
            ipv4: String::from_str(ipv4),
            ipv6: String::from_str(ipv6),
            info: DnsRecordInfo::new(String::from_str(record_name)),
            a_known: true,
            aaaa_known: true,
            error: None,
            phase: Phase::LoadingInfo,
        };
        if !valid {
            r.error = Some(DnsError::InvalidInput(String::from_str("invalid homename")));
            r.phase = Phase::Finished;
        } else if empty_name {
            r.error = Some(DnsError::InvalidInput(String::from_str("empty record name")));
            r.phase = Phase::Finished;
        }
        r
    }

    pub fn is_finished(&self) -> (r: bool)
        ensures
            r == (self@.phase == Phase::Finished),
    {
        self.phase == Phase::Finished
    }

    /// Record identifiers as far as they are known.
    pub fn record_info(&self) -> (r: &DnsRecordInfo)
        ensures
            r@ == self@.info,
    {
        &self.info
    }

    fn record_error(&mut self, e: DnsError)
        ensures
            final(self)@ == old(self)@.with_error(e@),
    {
        if self.error.is_none() {
            self.error = Some(e);
        }
    }

    fn begin_aaaa(&mut self)
        ensures
            final(self)@ == begin_aaaa(old(self)@),
    {
        if self.ipv6.unicode_len() == 0 || !self.aaaa_known {
            self.phase = Phase::Finished;
        } else {
            self.phase = Phase::LoadingIp(RecordType::AAAA);
        }
    }

    fn begin_a(&mut self)
        ensures
            final(self)@ == begin_a(old(self)@),
    {
        if self.ipv4.unicode_len() == 0 || !self.a_known {
            self.begin_aaaa();
        } else {
            self.phase = Phase::LoadingIp(RecordType::A);
        }
    }

    fn advance(&mut self, t: RecordType)
        ensures
            final(self)@ == advance(old(self)@, t),
    {
        match t {
            RecordType::A => self.begin_aaaa(),
            RecordType::AAAA => self.phase = Phase::Finished,
        }
    }

    fn after_listing(&mut self, t: RecordType)
        ensures
            final(self)@ == after_listing(old(self)@, t),
    {
        match t {
            RecordType::A => self.phase = Phase::Listing(RecordType::AAAA),
            RecordType::AAAA => {
                if self.a_known && self.aaaa_known {
                    self.phase = Phase::SavingDiscovered;
                } else {
                    self.begin_a();
                }
            },
        }
    }

    fn unexpected(&mut self)
        ensures
            final(self)@ == unexpected(old(self)@),
    {
        self.record_error(DnsError::InvalidInput(String::from_str("unexpected event")));
        self.phase = Phase::Finished;
    }

    fn ip(&self, t: RecordType) -> (r: &String)
        ensures
            r@ == self@.ip(t),
    {
        match t {
            RecordType::A => &self.ipv4,
            RecordType::AAAA => &self.ipv6,
        }
    }

    /// The operation this reconciliation awaits.
    pub fn action(&self) -> (a: Action)
        ensures
            a@ == pending(self@),
    {
        match self.phase {
            Phase::LoadingInfo => Action::LoadInfo { key: dns_record_key(self.homename.as_str()) },
            Phase::Listing(t) => Action::Call(
                ProviderCall::List { record_type: t, name: self.record_name.clone() },
            ),
            Phase::SavingDiscovered | Phase::SavingCreated(_) => Action::SaveInfo {
                key: dns_record_key(self.homename.as_str()),
                info: self.info.duplicate(),
            },
            Phase::LoadingIp(t) => Action::LoadIp { key: ip_cache_key(self.homename.as_str(), t) },
            Phase::Mutating(t) => match self.info.get_id(t) {
                Some(id) => Action::Call(
                    ProviderCall::Update {
                        id: id.clone(),
                        record_type: t,
                        name: self.info.record_name.clone(),
                        content: self.ip(t).clone(),
                    },
                ),
                None => Action::Call(
                    ProviderCall::Create {
                        record_type: t,
                        name: self.info.record_name.clone(),
                        content: self.ip(t).clone(),
                    },
                ),
            },
            Phase::SavingIp(t) => Action::SaveIp {
                key: ip_cache_key(self.homename.as_str(), t),
                ip: self.ip(t).clone(),
            },
            Phase::Finished => Action::Done(
                match &self.error {
                    Some(e) => Err(e.duplicate()),
                    None => Ok(()),
                },
            ),
        }
    }

    /// Takes in the outcome of the awaited operation.
    pub fn handle(&mut self, e: Event)
        ensures
            final(self)@ == next(old(self)@, e),
    {
        match self.phase {
            Phase::LoadingInfo => self.on_info(e),
            Phase::Listing(t) => self.on_listed(t, e),
            Phase::SavingDiscovered => match e {
                Event::Saved(Ok(())) => self.begin_a(),
                Event::Saved(Err(err)) => {
                    self.record_error(err);
                    self.begin_a();
                },
                _ => self.unexpected(),
            },
            Phase::LoadingIp(t) => self.on_ip(t, e),
            Phase::Mutating(t) => self.on_mutated(t, e),
            Phase::SavingCreated(t) => match e {
                Event::Saved(Ok(())) => self.phase = Phase::SavingIp(t),
                Event::Saved(Err(err)) => {
                    self.record_error(err);
                    self.advance(t);
                },
                _ => self.unexpected(),
            },
            Phase::SavingIp(t) => match e {
                Event::Saved(Ok(())) => self.advance(t),
                Event::Saved(Err(err)) => {
                    self.record_error(err);
                    self.advance(t);
                },
                _ => self.unexpected(),
            },
            Phase::Finished => {},
        }
    }

    fn on_info(&mut self, e: Event)
        requires
            old(self)@.phase == Phase::LoadingInfo,
        ensures
            final(self)@ == next(old(self)@, e),
    {
        match e {
            Event::InfoLoaded(Ok(Some(info))) => {
                self.info = info;
                self.begin_a();
            },
            Event::InfoLoaded(_) => self.phase = Phase::Listing(RecordType::A),
            _ => self.unexpected(),
        }
    }

    fn on_listed(&mut self, t: RecordType, e: Event)
        requires
            old(self)@.phase == Phase::Listing(t),
        ensures
            final(self)@ == next(old(self)@, e),
    {
        match e {
            Event::Listed(ProviderReply::Success(recs)) => {
                match find_existing_record(&recs, self.record_name.as_str(), t) {
                    Some(id) => self.info.set_id(t, id),
                    None => {},
                }
                self.after_listing(t);
            },
            Event::Listed(r) => {
                match t {
                    RecordType::A => self.a_known = false,
                    RecordType::AAAA => self.aaaa_known = false,
                }
                self.record_error(describe_failure("Failed to list DNS records: ", &r));
                self.after_listing(t);
            },
            _ => self.unexpected(),
        }
    }

    fn on_ip(&mut self, t: RecordType, e: Event)
        requires
            old(self)@.phase == Phase::LoadingIp(t),
        ensures
            final(self)@ == next(old(self)@, e),
    {
        match e {
            Event::IpLoaded(r) => {
                let equal = match &r {
                    Ok(Some(v)) => str_eq(v.as_str(), self.ip(t).as_str()),
                    _ => false,
                };
                if equal {
                    self.advance(t);
                } else {
                    self.phase = Phase::Mutating(t);
                }
            },
            _ => self.unexpected(),
        }
    }

    fn on_mutated(&mut self, t: RecordType, e: Event)
        requires
            old(self)@.phase == Phase::Mutating(t),
        ensures
            final(self)@ == next(old(self)@, e),
    {
        let has_id = self.info.get_id(t).is_some();
        match e {
            Event::Updated(r) => {
                if has_id {
                    match r {
                        ProviderReply::Success(_) => self.phase = Phase::SavingIp(t),
                        _ => {
                            self.record_error(describe_failure("Failed to update DNS record: ", &r));
                            self.advance(t);
                        },
                    }
                } else {
                    self.unexpected();
                }
            },
            Event::Created(r) => {
                if !has_id {
                    match r {
                        ProviderReply::Success(Some(id)) => {
                            self.info.set_id(t, id);
                            if self.a_known && self.aaaa_known {
                                self.phase = Phase::SavingCreated(t);
                            } else {
                                self.phase = Phase::SavingIp(t);
                            }
                        },
                        ProviderReply::Success(None) => self.advance(t),
                        _ => {
                            self.record_error(describe_failure("Failed to create DNS record: ", &r));
                            self.advance(t);
                        },
                    }
                } else {
                    self.unexpected();
                }
            },
            _ => self.unexpected(),
        }
    }
}

impl DnsManager {
    /// Reconciliation that brings the A and AAAA records of `homename`, named
    /// `record_name` at the provider, to the candidate addresses.
    pub fn maybe_update_dns(&self, homename: &str, record_name: &str, ipv4: &str, ipv6: &str) -> (r:
        Reconciliation)
        ensures
            r@ == init(homename@, record_name@, ipv4@, ipv6@),
    {
        Reconciliation::new(homename, record_name, ipv4, ipv6)
    }

    /// Reconciliation that only looks up the record identifiers of `homename`:
    /// from the cache, else from the provider, caching what it found.
    pub fn get_or_create_record_ids(&self, homename: &str, record_name: &str) -> (r:
        Reconciliation)
        ensures
            r@ == init(homename@, record_name@, Seq::empty(), Seq::empty()),
    {
        let r = Reconciliation::new(homename, record_name, "", "");
        proof {
            reveal_strlit("");
        }
        assert(r@.ipv4 =~= Seq::<char>::empty());
        assert(r@.ipv6 =~= Seq::<char>::empty());
        r
    }
}

} // verus!
