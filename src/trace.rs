//! Runs of a reconciliation over a sequence of events, and what holds of every run.
use vstd::prelude::*;
use crate::dns::{CallView, InfoView, ProviderReply, RecordType, found_id, info_key, ip_key, lemma_keys_distinct};
use crate::reconcile::{ActionView, Event, Phase, RecView, advance, begin_aaaa, init, next, pending};
use crate::request::valid_homename;

verus! {

/// State after the first `n` events of `evs`, fed in order to `s`.
pub open spec fn run(s: RecView, evs: Seq<Event>, n: nat) -> RecView
    decreases n,
{
    if n == 0 {
        s
    } else {
        next(run(s, evs, (n - 1) as nat), evs[n - 1])
    }
}

/// Position of a phase in the order reconciliation goes through them.
pub open spec fn rank(p: Phase) -> int {
    match p {
        Phase::LoadingInfo => 0,
        Phase::Listing(RecordType::A) => 1,
        Phase::Listing(RecordType::AAAA) => 2,
        Phase::SavingDiscovered => 3,
        Phase::LoadingIp(RecordType::A) => 4,
        Phase::Mutating(RecordType::A) => 5,
        Phase::SavingCreated(RecordType::A) => 6,
        Phase::SavingIp(RecordType::A) => 7,
        Phase::LoadingIp(RecordType::AAAA) => 8,
        Phase::Mutating(RecordType::AAAA) => 9,
        Phase::SavingCreated(RecordType::AAAA) => 10,
        Phase::SavingIp(RecordType::AAAA) => 11,
        Phase::Finished => 12,
    }
}

/// Whether an action creates or updates a record of type `t`.
pub open spec fn mutates(a: ActionView, t: RecordType) -> bool {
    match a {
        ActionView::Call(CallView::Create { record_type, .. }) => record_type == t,
        ActionView::Call(CallView::Update { record_type, .. }) => record_type == t,
        _ => false,
    }
}

/// Whether an action reads or writes the cached address of type `t`.
pub open spec fn touches_ip(a: ActionView, homename: Seq<char>, t: RecordType) -> bool {
    match a {
        ActionView::LoadIp { key } => key == ip_key(homename, t),
        ActionView::SaveIp { key, .. } => key == ip_key(homename, t),
        _ => false,
    }
}

/// An event never changes the names and addresses a reconciliation works on.
pub proof fn lemma_next_frame(s: RecView, e: Event)
    ensures
        next(s, e).homename == s.homename,
        next(s, e).record_name == s.record_name,
        next(s, e).ipv4 == s.ipv4,
        next(s, e).ipv6 == s.ipv6,
        s.error is Some ==> next(s, e).error == s.error,
{
}

/// Each event moves an unfinished reconciliation strictly forward.
pub proof fn lemma_next_rank(s: RecView, e: Event)
    ensures
        s.phase != Phase::Finished ==> rank(next(s, e).phase) > rank(s.phase),
        s.phase == Phase::Finished ==> next(s, e) == s,
{
}

pub proof fn lemma_run_frame(s: RecView, evs: Seq<Event>, n: nat)
    requires
        n <= evs.len(),
    ensures
        run(s, evs, n).homename == s.homename,
        run(s, evs, n).record_name == s.record_name,
        run(s, evs, n).ipv4 == s.ipv4,
        run(s, evs, n).ipv6 == s.ipv6,
        s.error is Some ==> run(s, evs, n).error == s.error,
    decreases n,
{
    if n > 0 {
        lemma_run_frame(s, evs, (n - 1) as nat);
        lemma_next_frame(run(s, evs, (n - 1) as nat), evs[n - 1]);
    }
}

/// Later states of a run stand strictly further on, until it finishes.
pub proof fn lemma_run_rank(s: RecView, evs: Seq<Event>, i: nat, j: nat)
    requires
        i < j <= evs.len(),
        run(s, evs, i).phase != Phase::Finished,
    ensures
        rank(run(s, evs, j).phase) > rank(run(s, evs, i).phase),
    decreases j,
{
    let pj = run(s, evs, (j - 1) as nat);
    lemma_next_rank(pj, evs[j - 1]);
    if i < j - 1 {
        lemma_run_rank(s, evs, i, (j - 1) as nat);
    }
}

/// A reconciliation creates or updates a record of each type at most once.
pub proof fn lemma_single_mutation(s: RecView, evs: Seq<Event>, i: nat, j: nat, t: RecordType)
    requires
        i < j <= evs.len(),
        mutates(pending(run(s, evs, i)), t),
    ensures
        !mutates(pending(run(s, evs, j)), t),
{
    lemma_run_rank(s, evs, i, j);
}

/// Whether a phase belongs to the path of record type `t`.
pub open spec fn on_path(p: Phase, t: RecordType) -> bool {
    p == Phase::LoadingIp(t) || p == Phase::Mutating(t) || p == Phase::SavingCreated(t) || p
        == Phase::SavingIp(t)
}

proof fn lemma_next_off_path(s: RecView, e: Event, t: RecordType)
    requires
        s.ip(t).len() == 0,
        !on_path(s.phase, t),
    ensures
        !on_path(next(s, e).phase, t),
{
}

proof fn lemma_run_off_path(s: RecView, evs: Seq<Event>, n: nat, t: RecordType)
    requires
        n <= evs.len(),
        s.ip(t).len() == 0,
        !on_path(s.phase, t),
    ensures
        !on_path(run(s, evs, n).phase, t),
    decreases n,
{
    if n > 0 {
        lemma_run_off_path(s, evs, (n - 1) as nat, t);
        lemma_run_frame(s, evs, (n - 1) as nat);
        lemma_next_off_path(run(s, evs, (n - 1) as nat), evs[n - 1], t);
    }
}

/// An empty candidate address of one type leads to no create or update of a
/// record of that type, and to no read or write of its cached address.
pub proof fn lemma_empty_address_skipped(
    homename: Seq<char>,
    record_name: Seq<char>,
    ipv4: Seq<char>,
    ipv6: Seq<char>,
    evs: Seq<Event>,
    n: nat,
    t: RecordType,
)
    requires
        n <= evs.len(),
        init(homename, record_name, ipv4, ipv6).ip(t).len() == 0,
    ensures
        !mutates(pending(run(init(homename, record_name, ipv4, ipv6), evs, n)), t),
        !touches_ip(pending(run(init(homename, record_name, ipv4, ipv6), evs, n)), homename, t),
{
    let s0 = init(homename, record_name, ipv4, ipv6);
    lemma_run_off_path(s0, evs, n, t);
    lemma_run_frame(s0, evs, n);
    lemma_keys_distinct(homename);
}

pub open spec fn is_failure<T>(r: ProviderReply<T>) -> bool {
    match r {
        ProviderReply::Success(_) => false,
        _ => true,
    }
}

/// Whether `e` is a provider reply that reports failure.
pub open spec fn failed_reply(e: Event) -> bool {
    match e {
        Event::Listed(r) => is_failure(r),
        Event::Created(r) => is_failure(r),
        Event::Updated(r) => is_failure(r),
        _ => false,
    }
}

/// Whether `e` is the kind of reply that the provider call of `s` awaits.
pub open spec fn replies_to(s: RecView, e: Event) -> bool {
    match s.phase {
        Phase::Listing(_) => e is Listed,
        Phase::Mutating(t) => if s.info.id(t) is Some {
            e is Updated
        } else {
            e is Created
        },
        _ => false,
    }
}

/// A failed provider call on the IPv4 path is reported and leaves the IPv6
/// path to go on as it would have: its address, identifiers and next phase
/// are those it had.
pub proof fn lemma_ipv4_failure_leaves_ipv6(s: RecView, e: Event)
    requires
        s.phase == Phase::Listing(RecordType::A) || s.phase == Phase::Mutating(RecordType::A),
        replies_to(s, e),
        failed_reply(e),
    ensures
        next(s, e).error is Some,
        next(s, e).ipv6 == s.ipv6,
        next(s, e).aaaa_known == s.aaaa_known,
        next(s, e).info.aaaa_id == s.info.aaaa_id,
        next(s, e).phase == if s.phase == Phase::Listing(RecordType::A) {
            Phase::Listing(RecordType::AAAA)
        } else {
            begin_aaaa(s).phase
        },
{
}

/// A failed provider call on the IPv6 path is reported and leaves the IPv4
/// path to go on: its address and identifiers are kept, and it starts unless
/// its address is empty or its own listing failed.
pub proof fn lemma_ipv6_failure_leaves_ipv4(s: RecView, e: Event)
    requires
        s.phase == Phase::Listing(RecordType::AAAA),
        replies_to(s, e),
        failed_reply(e),
    ensures
        next(s, e).error is Some,
        next(s, e).ipv4 == s.ipv4,
        next(s, e).a_known == s.a_known,
        next(s, e).info.a_id == s.info.a_id,
        next(s, e).phase == if s.ipv4.len() > 0 && s.a_known {
            Phase::LoadingIp(RecordType::A)
        } else {
            Phase::Finished
        },
{
}

/// Id of the first record of type `t` named `name` in a successful listing.
pub open spec fn listed_id(e: Event, name: Seq<char>, t: RecordType) -> Option<Seq<char>> {
    match e {
        Event::Listed(ProviderReply::Success(recs)) => found_id(recs@, name, t),
        _ => None,
    }
}

/// Whether an action creates a record of type `t`.
pub open spec fn creates(a: ActionView, t: RecordType) -> bool {
    match a {
        ActionView::Call(CallView::Create { record_type, .. }) => record_type == t,
        _ => false,
    }
}

proof fn lemma_next_keeps_id(s: RecView, e: Event, t: RecordType)
    requires
        s.info.id(t) is Some,
        rank(s.phase) > rank(Phase::Listing(t)),
    ensures
        next(s, e).info.id(t) == s.info.id(t),
        rank(next(s, e).phase) > rank(Phase::Listing(t)),
{
    lemma_next_rank(s, e);
}

/// A record that the provider listed is adopted: from then on its id stands
/// for that type, and no record of that type is created.
pub proof fn lemma_adopts_listed_record(s: RecView, evs: Seq<Event>, i: nat, j: nat, t: RecordType)
    requires
        i < j <= evs.len(),
        run(s, evs, i).phase == Phase::Listing(t),
        listed_id(evs[i as int], run(s, evs, i).record_name, t) is Some,
    ensures
        run(s, evs, j).info.id(t) == listed_id(evs[i as int], run(s, evs, i).record_name, t),
        !creates(pending(run(s, evs, j)), t),
    decreases j,
{
    lemma_run_rank(s, evs, i, j);
    if j > i + 1 {
        lemma_adopts_listed_record(s, evs, i, (j - 1) as nat, t);
        lemma_run_rank(s, evs, i, (j - 1) as nat);
        lemma_next_keeps_id(run(s, evs, (j - 1) as nat), evs[j - 1], t);
    }
}

/// Id of the record that a successful create reply names.
pub open spec fn created_id(e: Event) -> Option<Seq<char>> {
    match e {
        Event::Created(ProviderReply::Success(Some(id))) => Some(id@),
        _ => None,
    }
}

/// After a successful create, the identifiers holding the new id are cached,
/// and once that write succeeded, the address the record was created with.
pub proof fn lemma_create_then_cache(s: RecView, e: Event, t: RecordType)
    requires
        s.phase == Phase::Mutating(t),
        s.info.id(t) is None,
        s.a_known && s.aaaa_known,
        created_id(e) is Some,
    ensures
        pending(next(s, e)) == (ActionView::SaveInfo {
            key: info_key(s.homename),
            info: s.info.with_id(t, created_id(e)->0),
        }),
        pending(next(next(s, e), Event::Saved(Ok(())))) == (ActionView::SaveIp {
            key: ip_key(s.homename, t),
            ip: s.ip(t),
        }),
{
}

proof fn lemma_next_keeps_no_id(s: RecView, e: Event, t: RecordType)
    requires
        s.info.id(t) is None,
        rank(s.phase) > rank(Phase::SavingIp(t)),
    ensures
        next(s, e).info.id(t) is None,
        rank(next(s, e).phase) > rank(Phase::SavingIp(t)),
{
    lemma_next_rank(s, e);
}

/// When a create fails, nothing of it reaches the cache: the address of that
/// type is not written, and identifiers written later carry no id of that type.
pub proof fn lemma_failed_create_not_cached(s: RecView, evs: Seq<Event>, i: nat, j: nat, t: RecordType)
    requires
        i < j <= evs.len(),
        run(s, evs, i).phase == Phase::Mutating(t),
        run(s, evs, i).info.id(t) is None,
        evs[i as int] is Created,
        created_id(evs[i as int]) is None,
    ensures
        run(s, evs, j).info.id(t) is None,
        rank(run(s, evs, j).phase) > rank(Phase::SavingIp(t)),
        !touches_ip(pending(run(s, evs, j)), s.homename, t),
        match pending(run(s, evs, j)) {
            ActionView::SaveInfo { info, .. } => info.id(t) is None,
            _ => true,
        },
    decreases j,
{
    lemma_run_frame(s, evs, j);
    lemma_keys_distinct(s.homename);
    if j > i + 1 {
        lemma_failed_create_not_cached(s, evs, i, (j - 1) as nat, t);
        lemma_next_keeps_no_id(run(s, evs, (j - 1) as nat), evs[j - 1], t);
    }
}

/// Whether `e` is a provider reply that accepted a create or update.
pub open spec fn accepted(e: Event) -> bool {
    match e {
        Event::Updated(ProviderReply::Success(_)) => true,
        Event::Created(ProviderReply::Success(Some(_))) => true,
        _ => false,
    }
}

proof fn lemma_enter_saving(p: RecView, e: Event, t: RecordType)
    requires
        next(p, e).phase == Phase::SavingIp(t) || next(p, e).phase == Phase::SavingCreated(t),
    ensures
        (p.phase == Phase::Mutating(t) && accepted(e)) || p.phase == Phase::SavingCreated(t),
{
}

/// The cache is written for a record type only after the provider accepted a
/// create or update of that type: every state that awaits such a write comes
/// after that acceptance.
pub proof fn lemma_written_only_after_acceptance(s: RecView, evs: Seq<Event>, j: nat, t: RecordType)
    requires
        j <= evs.len(),
        !on_path(s.phase, t),
        run(s, evs, j).phase == Phase::SavingIp(t) || run(s, evs, j).phase == Phase::SavingCreated(
            t,
        ),
    ensures
        exists|i: nat|
            #![trigger run(s, evs, i)]
            i < j && run(s, evs, i).phase == Phase::Mutating(t) && accepted(evs[i as int]),
    decreases j,
{
    if j == 0 {
    } else {
        let k = (j - 1) as nat;
        lemma_enter_saving(run(s, evs, k), evs[k as int], t);
        if run(s, evs, k).phase == Phase::Mutating(t) && accepted(evs[k as int]) {
            assert(run(s, evs, k).phase == Phase::Mutating(t) && accepted(evs[k as int]));
        } else {
            lemma_written_only_after_acceptance(s, evs, k, t);
        }
    }
}

/// What a cache holds, as far as reconciliation reads and writes it.
pub struct CacheView {
    pub infos: Map<Seq<char>, InfoView>,
    pub ips: Map<Seq<char>, Seq<char>>,
}

/// Whether `e` is what cache `c` answers when `a` reads it. Actions that
/// read nothing take any event.
pub open spec fn answers(c: CacheView, a: ActionView, e: Event) -> bool {
    match a {
        ActionView::LoadInfo { key } => match e {
            Event::InfoLoaded(Ok(Some(info))) => c.infos.contains_key(key) && c.infos[key] == info@,
            Event::InfoLoaded(Ok(None)) => !c.infos.contains_key(key),
            _ => false,
        },
        ActionView::LoadIp { key } => match e {
            Event::IpLoaded(Ok(Some(v))) => c.ips.contains_key(key) && c.ips[key] == v@,
            Event::IpLoaded(Ok(None)) => !c.ips.contains_key(key),
            _ => false,
        },
        _ => true,
    }
}

/// Cache `c` after action `a` ended with event `e`.
pub open spec fn apply(c: CacheView, a: ActionView, e: Event) -> CacheView {
    match a {
        ActionView::SaveInfo { key, info } => match e {
            Event::Saved(Ok(())) => CacheView { infos: c.infos.insert(key, info), ..c },
            _ => c,
        },
        ActionView::SaveIp { key, ip } => match e {
            Event::Saved(Ok(())) => CacheView { ips: c.ips.insert(key, ip), ..c },
            _ => c,
        },
        _ => c,
    }
}

/// Cache `c` after the first `n` events of a run from `s`.
pub open spec fn cache_after(c: CacheView, s: RecView, evs: Seq<Event>, n: nat) -> CacheView
    decreases n,
{
    if n == 0 {
        c
    } else {
        let k = (n - 1) as nat;
        apply(cache_after(c, s, evs, k), pending(run(s, evs, k)), evs[k as int])
    }
}

/// Whether every cache read of a run from `s` was answered by cache `c` as the
/// run had written it so far.
pub open spec fn faithful(c: CacheView, s: RecView, evs: Seq<Event>) -> bool {
    forall|i: nat|
        i < evs.len() ==> #[trigger] answers(
            cache_after(c, s, evs, i),
            pending(run(s, evs, i)),
            evs[i as int],
        )
}

/// Whether cache `c` holds address `ip` of type `t` for `homename`, where it is not empty.
pub open spec fn holds_ip(c: CacheView, homename: Seq<char>, t: RecordType, ip: Seq<char>) -> bool {
    ip.len() > 0 ==> c.ips.contains_key(ip_key(homename, t)) && c.ips[ip_key(homename, t)] == ip
}

pub open spec fn past(p: Phase, t: RecordType) -> bool {
    match t {
        RecordType::A => rank(p) >= rank(Phase::LoadingIp(RecordType::AAAA)),
        RecordType::AAAA => p == Phase::Finished,
    }
}

/// Whether `e`, if it is a create reply that reports success, names the new record.
pub open spec fn names_created(e: Event) -> bool {
    match e {
        Event::Created(ProviderReply::Success(None)) => false,
        _ => true,
    }
}

/// A run without error so far has cached the record identifiers once past
/// looking them up, and the address of each path it completed.
pub open spec fn converging(s: RecView, c: CacheView) -> bool {
    &&& (!s.a_known || !s.aaaa_known) ==> s.error is Some
    &&& (s.error is None && rank(s.phase) >= rank(Phase::LoadingIp(RecordType::A)))
        ==> c.infos.contains_key(info_key(s.homename))
    &&& (s.error is None && past(s.phase, RecordType::A)) ==> holds_ip(
        c,
        s.homename,
        RecordType::A,
        s.ipv4,
    )
    &&& (s.error is None && past(s.phase, RecordType::AAAA)) ==> holds_ip(
        c,
        s.homename,
        RecordType::AAAA,
        s.ipv6,
    )
}

proof fn lemma_next_converging(s: RecView, c: CacheView, e: Event)
    requires
        converging(s, c),
        answers(c, pending(s), e),
        names_created(e),
    ensures
        converging(next(s, e), apply(c, pending(s), e)),
{
    lemma_keys_distinct(s.homename);
}

proof fn lemma_run_converging(c: CacheView, s: RecView, evs: Seq<Event>, n: nat)
    requires
        n <= evs.len(),
        faithful(c, s, evs),
        forall|i: nat| i < evs.len() ==> #[trigger] names_created(evs[i as int]),
        converging(s, c),
    ensures
        converging(run(s, evs, n), cache_after(c, s, evs, n)),
    decreases n,
{
    if n > 0 {
        let k = (n - 1) as nat;
        lemma_run_converging(c, s, evs, k);
        assert(answers(cache_after(c, s, evs, k), pending(run(s, evs, k)), evs[k as int]));
        assert(names_created(evs[k as int]));
        lemma_next_converging(run(s, evs, k), cache_after(c, s, evs, k), evs[k as int]);
    }
}

/// Identifiers and both addresses are cached, no error was met, and no
/// provider call or cache write is under way.
pub open spec fn settled(s: RecView, c: CacheView) -> bool {
    &&& s.error is None
    &&& s.a_known && s.aaaa_known
    &&& c.infos.contains_key(info_key(s.homename))
    &&& holds_ip(c, s.homename, RecordType::A, s.ipv4)
    &&& holds_ip(c, s.homename, RecordType::AAAA, s.ipv6)
    &&& s.phase == Phase::LoadingIp(RecordType::A) ==> s.ipv4.len() > 0
    &&& s.phase == Phase::LoadingIp(RecordType::AAAA) ==> s.ipv6.len() > 0
    &&& (s.phase == Phase::LoadingInfo || s.phase is LoadingIp || s.phase == Phase::Finished)
}

proof fn lemma_next_settled(s: RecView, c: CacheView, e: Event)
    requires
        settled(s, c),
        answers(c, pending(s), e),
    ensures
        settled(next(s, e), apply(c, pending(s), e)),
{
    lemma_keys_distinct(s.homename);
}

proof fn lemma_run_settled(c: CacheView, s: RecView, evs: Seq<Event>, n: nat)
    requires
        n <= evs.len(),
        faithful(c, s, evs),
        settled(s, c),
    ensures
        settled(run(s, evs, n), cache_after(c, s, evs, n)),
    decreases n,
{
    if n > 0 {
        let k = (n - 1) as nat;
        lemma_run_settled(c, s, evs, k);
        assert(answers(cache_after(c, s, evs, k), pending(run(s, evs, k)), evs[k as int]));
        lemma_next_settled(run(s, evs, k), cache_after(c, s, evs, k), evs[k as int]);
    }
}

/// Idempotence: after a reconciliation that ended without error, and whose
/// accepted creates each named the new record, a second one with the same
/// hostname, record name and addresses, against the cache as the first left
/// it, calls the provider not at all (no listing, create or update), writes
/// nothing to the cache, and ends without error.
pub proof fn lemma_idempotent(
    homename: Seq<char>,
    record_name: Seq<char>,
    ipv4: Seq<char>,
    ipv6: Seq<char>,
    c: CacheView,
    first: Seq<Event>,
    second: Seq<Event>,
    n: nat,
)
    requires
        faithful(c, init(homename, record_name, ipv4, ipv6), first),
        forall|i: nat| i < first.len() ==> #[trigger] names_created(first[i as int]),
        pending(run(init(homename, record_name, ipv4, ipv6), first, first.len())) == ActionView::Done(
            Ok(()),
        ),
        faithful(
            cache_after(c, init(homename, record_name, ipv4, ipv6), first, first.len()),
            init(homename, record_name, ipv4, ipv6),
            second,
        ),
        n <= second.len(),
    ensures
        !(pending(run(init(homename, record_name, ipv4, ipv6), second, n)) is Call),
        !(pending(run(init(homename, record_name, ipv4, ipv6), second, n)) is SaveInfo),
        !(pending(run(init(homename, record_name, ipv4, ipv6), second, n)) is SaveIp),
        pending(run(init(homename, record_name, ipv4, ipv6), second, n)) is Done ==> pending(
            run(init(homename, record_name, ipv4, ipv6), second, n),
        ) == ActionView::Done(Ok(())),
{
    let s0 = init(homename, record_name, ipv4, ipv6);
    let c1 = cache_after(c, s0, first, first.len());
    lemma_run_converging(c, s0, first, first.len());
    lemma_run_frame(s0, first, first.len());
    assert(settled(s0, c1));
    lemma_run_settled(c1, s0, second, n);
}

/// Whether `e` is the kind of outcome that action `a` awaits.
pub open spec fn fits(a: ActionView, e: Event) -> bool {
    match a {
        ActionView::LoadInfo { .. } => e is InfoLoaded,
        ActionView::SaveInfo { .. } => e is Saved,
        ActionView::LoadIp { .. } => e is IpLoaded,
        ActionView::SaveIp { .. } => e is Saved,
        ActionView::Call(CallView::List { .. }) => e is Listed,
        ActionView::Call(CallView::Create { .. }) => e is Created,
        ActionView::Call(CallView::Update { .. }) => e is Updated,
        ActionView::Done(_) => true,
    }
}

/// Whether `e`, if it is a listing, succeeded and holds no record of type `t` named `name`.
pub open spec fn lists_none(e: Event, name: Seq<char>, t: RecordType) -> bool {
    match e {
        Event::Listed(ProviderReply::Success(recs)) => found_id(recs@, name, t) is None,
        Event::Listed(_) => false,
        _ => true,
    }
}

/// Nothing is known yet of a record of type `t`.
pub open spec fn untracked(s: RecView, c: CacheView, t: RecordType) -> bool {
    &&& s.info.id(t) is None
    &&& s.info.record_name == s.record_name
    &&& s.known(t)
    &&& s.ip(t).len() > 0
    &&& !c.ips.contains_key(ip_key(s.homename, t))
    &&& s.phase == Phase::LoadingInfo ==> !c.infos.contains_key(info_key(s.homename))
}

proof fn lemma_next_untracked(s: RecView, c: CacheView, e: Event, t: RecordType)
    requires
        untracked(s, c, t),
        rank(s.phase) < rank(Phase::Mutating(t)),
        answers(c, pending(s), e),
        fits(pending(s), e),
        lists_none(e, s.record_name, t),
    ensures
        rank(next(s, e).phase) <= rank(Phase::Mutating(t)),
        untracked(next(s, e), apply(c, pending(s), e), t),
{
    lemma_keys_distinct(s.homename);
}

proof fn lemma_run_reaches_create(
    c: CacheView,
    s: RecView,
    evs: Seq<Event>,
    n: nat,
    t: RecordType,
)
    requires
        n <= evs.len(),
        untracked(s, c, t),
        rank(s.phase) <= rank(Phase::Mutating(t)),
        faithful(c, s, evs),
        forall|i: nat| i < evs.len() ==> #[trigger] fits(pending(run(s, evs, i)), evs[i as int]),
        forall|i: nat| i < evs.len() ==> #[trigger] lists_none(evs[i as int], s.record_name, t),
    ensures
        (rank(run(s, evs, n).phase) <= rank(Phase::Mutating(t)) && untracked(
            run(s, evs, n),
            cache_after(c, s, evs, n),
            t,
        )) || exists|i: nat|
            #![trigger run(s, evs, i)]
            i < n && run(s, evs, i).phase == Phase::Mutating(t) && untracked(
                run(s, evs, i),
                cache_after(c, s, evs, i),
                t,
            ),
    decreases n,
{
    if n > 0 {
        let k = (n - 1) as nat;
        lemma_run_reaches_create(c, s, evs, k, t);
        let sk = run(s, evs, k);
        let ck = cache_after(c, s, evs, k);
        if rank(sk.phase) <= rank(Phase::Mutating(t)) && untracked(sk, ck, t) {
            if sk.phase == Phase::Mutating(t) {
                assert(run(s, evs, k).phase == Phase::Mutating(t));
            } else {
                assert(answers(ck, pending(sk), evs[k as int]));
                assert(fits(pending(run(s, evs, k)), evs[k as int]));
                assert(lists_none(evs[k as int], s.record_name, t));
                lemma_run_frame(s, evs, k);
                lemma_next_untracked(sk, ck, evs[k as int], t);
            }
        }
    }
}

/// First reconciliation of a hostname: with nothing cached for it and no
/// record of type `t` at the provider, a run that ends has asked to create a
/// record of type `t` with the record name and the candidate address of that
/// type, if that address is not empty. With `lemma_single_mutation`, it asked
/// exactly once.
#[verifier::rlimit(30)]
pub proof fn lemma_first_run_creates(
    homename: Seq<char>,
    record_name: Seq<char>,
    ipv4: Seq<char>,
    ipv6: Seq<char>,
    c: CacheView,
    evs: Seq<Event>,
    t: RecordType,
)
    requires
        valid_homename(homename),
        record_name.len() > 0,
        init(homename, record_name, ipv4, ipv6).ip(t).len() > 0,
        !c.infos.contains_key(info_key(homename)),
        !c.ips.contains_key(ip_key(homename, t)),
        faithful(c, init(homename, record_name, ipv4, ipv6), evs),
        forall|i: nat|
            i < evs.len() ==> #[trigger] fits(
                pending(run(init(homename, record_name, ipv4, ipv6), evs, i)),
                evs[i as int],
            ),
        forall|i: nat| i < evs.len() ==> #[trigger] lists_none(evs[i as int], record_name, t),
        pending(run(init(homename, record_name, ipv4, ipv6), evs, evs.len())) is Done,
    ensures
        exists|i: nat|
            #![trigger run(init(homename, record_name, ipv4, ipv6), evs, i)]
            i < evs.len() && pending(run(init(homename, record_name, ipv4, ipv6), evs, i))
                == ActionView::Call(
                CallView::Create {
                    record_type: t,
                    name: record_name,
                    content: init(homename, record_name, ipv4, ipv6).ip(t),
                },
            ),
{
    let s0 = init(homename, record_name, ipv4, ipv6);
    lemma_run_reaches_create(c, s0, evs, evs.len(), t);
    let i = choose|i: nat|
        #![trigger run(s0, evs, i)]
        i < evs.len() && run(s0, evs, i).phase == Phase::Mutating(t) && untracked(
            run(s0, evs, i),
            cache_after(c, s0, evs, i),
            t,
        );
    lemma_run_frame(s0, evs, i);
    assert(pending(run(s0, evs, i)) == ActionView::Call(
        CallView::Create { record_type: t, name: record_name, content: s0.ip(t) },
    ));
}

/// Change detection: a cached address equal to the candidate ends the path of
/// its type with no provider call; a different or missing one leads to one
/// update of the known record (or a create when none is known) with the
/// candidate address.
pub proof fn lemma_change_detection(s: RecView, e: Event, t: RecordType)
    requires
        s.phase == Phase::LoadingIp(t),
        e is IpLoaded,
    ensures
        match e {
            Event::IpLoaded(Ok(Some(v))) => v@ == s.ip(t) ==> next(s, e) == advance(s, t),
            _ => true,
        },
        !(match e {
            Event::IpLoaded(Ok(Some(v))) => v@ == s.ip(t),
            _ => false,
        }) ==> pending(next(s, e)) == match s.info.id(t) {
            Some(id) => ActionView::Call(
                CallView::Update { id, record_type: t, name: s.info.record_name, content: s.ip(t) },
            ),
            None => ActionView::Call(
                CallView::Create { record_type: t, name: s.info.record_name, content: s.ip(t) },
            ),
        },
{
}

} // verus!
