use vstd::prelude::*;

use crate::assoc::{
    distinct_names, lemma_with_entry, lemma_without_entry, lookup, with_entry, without_entry,
};
use crate::random::random_below;
use crate::record::{object_text, Record};
use crate::store::{BackendWrite, Members, SessionStore};
use crate::token::{token_entries, token_read, AccessToken};

verus! {

/// Seconds to wait before retrying a sweep that could not reach the backend.
pub const SHORT_SLEEP_SECS: u64 = 30;

/// Seconds to wait between two completed sweeps.
pub const LONG_SLEEP_SECS: u64 = 60 * 60;

/// Renewals per minute that a sweep aims not to exceed.
pub const AVG_UPDATES_PER_MINUTE: u64 = 50;

/// Sessions whose remaining time-to-live is at most this many seconds are renewed.
pub const UPDATE_THRESHOLD_SECS: i64 = 4 * 60 * 60;

/// The record member that holds the session's token.
pub const SESSION_FIELD_TOKEN: &'static str = "token";

/// The keys, in order, whose probed time-to-live is known and at most `threshold`.
pub open spec fn due_keys(s: Seq<(Seq<char>, Option<i64>)>, threshold: int) -> Seq<Seq<char>>
    decreases s.len(),
{
    if s.len() == 0 {
        Seq::empty()
    } else {
        let rest = due_keys(s.drop_last(), threshold);
        if s.last().1 is Some && s.last().1->0 <= threshold {
            rest.push(s.last().0)
        } else {
            rest
        }
    }
}

/// Probe results as plain values.
pub open spec fn probes_view(v: Seq<(String, Option<i64>)>) -> Seq<(Seq<char>, Option<i64>)> {
    v.map_values(|p: (String, Option<i64>)| (p.0@, p.1))
}

/// Strings as plain values.
pub open spec fn strings_view(v: Seq<String>) -> Seq<Seq<char>> {
    v.map_values(|s: String| s@)
}

/// The jitter window, in seconds, for `count` renewals at `rate` per minute:
/// the whole minutes that many renewals take at that rate, held at `u64::MAX`.
/// It is empty for a batch smaller than one minute's worth.
pub open spec fn window_secs(count: int, rate: int) -> int {
    let w = (count / rate) * 60;
    if w <= u64::MAX { w } else { u64::MAX as int }
}

/// Selects the sessions due for renewal from the probed time-to-live of each
/// key: those whose probe succeeded with at most `threshold` seconds left.
/// Keys whose probe failed are left for a later sweep.
pub fn select_for_renewal(probes: &Vec<(String, Option<i64>)>, threshold: i64) -> (r: Vec<String>)
    ensures
        strings_view(r@) == due_keys(probes_view(probes@), threshold as int),
{
    let ghost s = probes_view(probes@);
    let mut due: Vec<String> = Vec::new();
    let mut i: usize = 0;
    while i < probes.len()
        invariant
            i <= probes@.len(),
            s == probes_view(probes@),
            strings_view(due@) == due_keys(s.take(i as int), threshold as int),
        decreases probes@.len() - i,
    {
        let ghost before = due@;
        proof {
            assert(s.take(i as int + 1).drop_last() =~= s.take(i as int));
        }
        match probes[i].1 {
            Some(ttl) => {
                if ttl <= threshold {
                    due.push(probes[i].0.clone());
                    assert(strings_view(due@) =~= strings_view(before).push(s[i as int].0));
                }
            },
            None => {},
        }
        i = i + 1;
    }
    assert(s.take(i as int) =~= s);
    due
}

/// The jitter window in seconds for `count` renewals at `rate` per minute.
pub fn jitter_window(count: u64, rate: u64) -> (r: u64)
    requires
        rate > 0,
    ensures
        r == window_secs(count as int, rate as int),
{
    let w: u128 = ((count / rate) as u128) * 60;
    if w <= u64::MAX as u128 {
        w as u64
    } else {
        u64::MAX
    }
}

/// A delay drawn below `window` seconds; none where the window is empty.
pub fn renewal_delay(window: u64) -> (r: u64)
    ensures
        window == 0 ==> r == 0,
        window > 0 ==> r < window,
{
    if window == 0 {
        0
    } else {
        random_below(window)
    }
}

/// Gives each key due for renewal a delay before its upstream call, drawn
/// within the jitter window of the whole batch at `rate` renewals per minute,
/// so that the batch reaches the upstream server spread over that window.
pub fn plan_renewals(keys: Vec<String>, rate: u64) -> (r: Vec<(String, u64)>)
    requires
        rate > 0,
    ensures
        r@.len() == keys@.len(),
        forall|i: int|
            0 <= i < r@.len() ==> {
                let w = window_secs(keys@.len() as int, rate as int);
                &&& (#[trigger] r@[i]).0@ == keys@[i]@
                &&& w == 0 ==> r@[i].1 == 0
                &&& w > 0 ==> r@[i].1 < w
            },
{
    let window = jitter_window(keys.len() as u64, rate);
    let ghost w = window_secs(keys@.len() as int, rate as int);
    let mut plan: Vec<(String, u64)> = Vec::new();
    let mut i: usize = 0;
    while i < keys.len()
        invariant
            i <= keys@.len(),
            plan@.len() == i,
            window == w,
            forall|j: int|
                0 <= j < i ==> {
                    &&& (#[trigger] plan@[j]).0@ == keys@[j]@
                    &&& w == 0 ==> plan@[j].1 == 0
                    &&& w > 0 ==> plan@[j].1 < w
                },
        decreases keys@.len() - i,
    {
        let delay = renewal_delay(window);
        plan.push((keys[i].clone(), delay));
        i = i + 1;
    }
    plan
}

/// The refresh credential held by a record's token member, where the record
/// has a token member that reads as a token.
pub open spec fn credential_of(m: Members) -> Option<Seq<char>> {
    match lookup(m, "token"@) {
        Some(t) => match token_read(t, 0) {
            Some(tk) => Some(tk.2),
            None => None,
        },
        None => None,
    }
}

/// The refresh credential of a session record: `None` where the record has no
/// `token` member or it does not read as a token, in which case the session is
/// skipped this sweep.
pub fn refresh_credential(record: &Record) -> (r: Option<String>)
    requires
        record.wf(),
    ensures
        match r {
            Some(c) => credential_of(record.entries()) == Some(c@),
            None => credential_of(record.entries()) is None,
        },
{
    proof {
        reveal_strlit("token");
    }
    match record.get(SESSION_FIELD_TOKEN) {
        Some(text) => match AccessToken::from_json(text.as_str(), 0) {
            Some(t) => Some(t.refresh_token),
            None => None,
        },
        None => None,
    }
}

/// The token an upstream answer renews a session with: `response` is the body
/// of a successful answer, `None` where the call failed or was refused. Only a
/// body that reads as a token renews, and its lifetime must not be negative;
/// anything else counts as a failed renewal.
pub open spec fn renewed_token(response: Option<Seq<char>>, now: i64) -> Option<(Seq<char>, i32, Seq<char>, Seq<char>, i64)> {
    match response {
        Some(text) => match token_read(text, now) {
            Some(tk) => if tk.1 >= 0 { Some(tk) } else { None },
            None => None,
        },
        None => None,
    }
}

/// The JSON text of a token given by its parts.
pub open spec fn token_json(tk: (Seq<char>, i32, Seq<char>, Seq<char>, i64)) -> Seq<char> {
    object_text(token_entries(tk.0, tk.1 as int, tk.2, tk.3, tk.4 as int))
}

/// The cached records after the renewal of session `key`, whose record is
/// `record`, ends with the upstream answer `response` at instant `now`: the
/// session is dropped on failure, and on success its record is stored with the
/// `token` member replaced by the new token.
pub open spec fn renewal_effect(
    entries: Seq<(Seq<char>, Members)>,
    key: Seq<char>,
    record: Members,
    response: Option<Seq<char>>,
    now: i64,
) -> Seq<(Seq<char>, Members)> {
    match renewed_token(response, now) {
        None => without_entry(entries, key),
        Some(tk) => with_entry(entries, key, with_entry(record, "token"@, token_json(tk))),
    }
}

/// What became of one session's renewal.
pub enum Renewal {
    /// The renewal failed: the session was dropped, and the backend is to delete this key.
    Removed(String),
    /// The session holds the new token; the backend is to perform this write.
    Renewed(BackendWrite),
}

/// Completes the renewal of the session `key`, whose record is `record`, with
/// the upstream answer `response` received at instant `now`.
///
/// On failure the session is removed. On success the record's `token` member is
/// replaced by the new token, every other member kept, and the record is
/// written back with a time-to-live of the new token's lifetime.
pub fn finish_renewal(
    store: &mut SessionStore,
    key: String,
    record: Record,
    response: Option<String>,
    now: i64,
) -> (r: Renewal)
    requires
        old(store).wf(),
        record.wf(),
    ensures
        final(store).wf(),
        final(store).entries() == renewal_effect(
            old(store).entries(),
            key@,
            record.entries(),
            match response {
                Some(t) => Some(t@),
                None => None,
            },
            now,
        ),
        match renewed_token(
            match response {
                Some(t) => Some(t@),
                None => None,
            },
            now,
        ) {
            None => match r {
                Renewal::Removed(k) => k@ == key@,
                _ => false,
            },
            Some(tk) => {
                let updated = with_entry(record.entries(), "token"@, token_json(tk));
                match r {
                    Renewal::Renewed(w) => w.key@ == key@ && w.text@ == object_text(updated)
                        && w.ttl_secs == tk.1 as u64,
                    _ => false,
                }
            },
        },
{
    proof {
        reveal_strlit("token");
    }
    let fresh = match response {
        Some(text) => AccessToken::from_json(text.as_str(), now),
        None => None,
    };
    match fresh {
        Some(t) => {
            if t.expires_in >= 0 {
                let mut record = record;
                let ttl = t.expires_in as u64;
                record.insert(SESSION_FIELD_TOKEN.to_owned(), t.to_json());
                let w = store.set(key, record, ttl);
                Renewal::Renewed(w)
            } else {
                store.remove(key.as_str());
                Renewal::Removed(key)
            }
        },
        None => {
            store.remove(key.as_str());
            Renewal::Removed(key)
        },
    }
}

/// A successful renewal changes only the `token` member of the session's
/// record: the new token is stored there and every other member keeps its value.
pub proof fn renewal_keeps_other_members(
    record: Members,
    tk: (Seq<char>, i32, Seq<char>, Seq<char>, i64),
    name: Seq<char>,
)
    requires
        distinct_names(record),
    ensures
        lookup(with_entry(record, "token"@, token_json(tk)), "token"@) == Some(token_json(tk)),
        name != "token"@ ==> lookup(with_entry(record, "token"@, token_json(tk)), name) == lookup(
            record,
            name,
        ),
{
    lemma_with_entry(record, "token"@, token_json(tk));
}

/// Renewals of different sessions within one sweep may finish in either order:
/// whatever each upstream answer, both orders leave every key with the same
/// cached record, since each renewal touches only its own session.
pub proof fn renewals_commute(
    entries: Seq<(Seq<char>, Members)>,
    key1: Seq<char>,
    record1: Members,
    response1: Option<Seq<char>>,
    now1: i64,
    key2: Seq<char>,
    record2: Members,
    response2: Option<Seq<char>>,
    now2: i64,
    k: Seq<char>,
)
    requires
        distinct_names(entries),
        key1 != key2,
    ensures
        lookup(renewal_effect(renewal_effect(entries, key1, record1, response1, now1), key2, record2, response2, now2), k)
            == lookup(renewal_effect(renewal_effect(entries, key2, record2, response2, now2), key1, record1, response1, now1), k),
{
    lemma_renewal_effect(entries, key1, record1, response1, now1);
    lemma_renewal_effect(entries, key2, record2, response2, now2);
    let a = renewal_effect(entries, key1, record1, response1, now1);
    let b = renewal_effect(entries, key2, record2, response2, now2);
    lemma_renewal_effect(a, key2, record2, response2, now2);
    lemma_renewal_effect(b, key1, record1, response1, now1);
}

/// A renewal keeps names distinct, decides what its own key looks up, and
/// leaves every other key as it was.
proof fn lemma_renewal_effect(
    entries: Seq<(Seq<char>, Members)>,
    key: Seq<char>,
    record: Members,
    response: Option<Seq<char>>,
    now: i64,
)
    requires
        distinct_names(entries),
    ensures
        distinct_names(renewal_effect(entries, key, record, response, now)),
        lookup(renewal_effect(entries, key, record, response, now), key) == match renewed_token(
            response,
            now,
        ) {
            None => None,
            Some(tk) => Some(with_entry(record, "token"@, token_json(tk))),
        },
        forall|k: Seq<char>|
            k != key ==> #[trigger] lookup(renewal_effect(entries, key, record, response, now), k)
                == lookup(entries, k),
{
    match renewed_token(response, now) {
        None => lemma_without_entry(entries, key),
        Some(tk) => lemma_with_entry(entries, key, with_entry(record, "token"@, token_json(tk))),
    }
}

/// Where the engine stands within a sweep.
#[derive(PartialEq, Eq, Structural, Clone, Copy, Debug)]
pub enum Phase {
    /// Between sweeps, ready to start one.
    Idle,
    /// Listing every key held by the backend.
    Scanning,
    /// Fetching the remaining time-to-live of each key.
    Probing,
    /// Renewing the sessions that are due.
    Renewing,
    /// Waiting before the next sweep.
    Sleeping,
}

/// What the outside world reports to the engine.
pub enum Event {
    /// A sweep is to start.
    Start,
    /// The backend listed these keys.
    KeysListed(Vec<String>),
    /// The backend could not be reached or could not list its keys.
    ScanFailed,
    /// The remaining time-to-live of each key; `None` where its probe failed.
    TtlsProbed(Vec<(String, Option<i64>)>),
    /// Every scheduled renewal has finished, with these counts of successes and failures.
    RenewalsDone(u64, u64),
    /// The wait has elapsed.
    Woke,
}

/// What the engine asks the outside world to do next.
pub enum Action {
    /// List every key held by the backend.
    ListKeys,
    /// Fetch the remaining time-to-live of each of these keys.
    ProbeTtls(Vec<String>),
    /// Renew each of these sessions, each after its delay in seconds.
    Renew(Vec<(String, u64)>),
    /// Wait this many seconds.
    Sleep(u64),
    /// Nothing to do.
    Nothing,
}

/// The refresh engine's decisions: one sweep lists the keys, probes their
/// time-to-live, renews the sessions that are due with their upstream calls
/// spread over a jitter window, then sleeps; a failed scan or probe sleeps a
/// short while and starts over.
pub struct Engine {
    phase: Phase,
    threshold: i64,
    rate: u64,
}

impl Engine {
    /// The current phase.
    pub closed spec fn phase_spec(&self) -> Phase {
        self.phase
    }

    /// Seconds of time-to-live at or below which a session is renewed.
    pub closed spec fn threshold_spec(&self) -> i64 {
        self.threshold
    }

    /// Renewals per minute that a sweep aims at.
    pub closed spec fn rate_spec(&self) -> u64 {
        self.rate
    }

    /// An idle engine with the renewal threshold of four hours and a rate of
    /// fifty renewals per minute.
    pub fn new() -> (r: Engine)
        ensures
            r.phase_spec() == Phase::Idle,
            r.threshold_spec() == UPDATE_THRESHOLD_SECS,
            r.rate_spec() == AVG_UPDATES_PER_MINUTE,
    {
        Engine { phase: Phase::Idle, threshold: UPDATE_THRESHOLD_SECS, rate: AVG_UPDATES_PER_MINUTE }
    }

    /// An idle engine with the given threshold and rate.
    pub fn with_limits(threshold: i64, rate: u64) -> (r: Engine)
        requires
            rate > 0,
        ensures
            r.phase_spec() == Phase::Idle,
            r.threshold_spec() == threshold,
            r.rate_spec() == rate,
    {
        Engine { phase: Phase::Idle, threshold, rate }
    }

    /// The current phase.
    pub fn phase(&self) -> (r: Phase)
        ensures
            r == self.phase_spec(),
    {
        self.phase
    }

    /// Takes one event and moves to the next phase, returning what to do.
    /// An event that does not fit the current phase changes nothing.
    pub fn step(&mut self, event: Event) -> (r: Action)
        requires
            old(self).rate_spec() > 0,
        ensures
            final(self).threshold_spec() == old(self).threshold_spec(),
            final(self).rate_spec() == old(self).rate_spec(),
            match (old(self).phase_spec(), event) {
                (Phase::Idle, Event::Start) => final(self).phase_spec() == Phase::Scanning
                    && r is ListKeys,
                (Phase::Scanning, Event::KeysListed(keys)) => final(self).phase_spec()
                    == Phase::Probing && match r {
                    Action::ProbeTtls(k) => k@ == keys@,
                    _ => false,
                },
                (Phase::Scanning, Event::ScanFailed) | (Phase::Probing, Event::ScanFailed) => {
                    final(self).phase_spec() == Phase::Sleeping && r == Action::Sleep(SHORT_SLEEP_SECS)
                },
                (Phase::Probing, Event::TtlsProbed(probes)) => {
                    let due = due_keys(probes_view(probes@), old(self).threshold_spec() as int);
                    let w = window_secs(due.len() as int, old(self).rate_spec() as int);
                    &&& final(self).phase_spec() == Phase::Renewing
                    &&& match r {
                        Action::Renew(plan) => plan@.len() == due.len() && forall|i: int|
                            0 <= i < plan@.len() ==> {
                                &&& (#[trigger] plan@[i]).0@ == due[i]
                                &&& w == 0 ==> plan@[i].1 == 0
                                &&& w > 0 ==> plan@[i].1 < w
                            },
                        _ => false,
                    }
                },
                (Phase::Renewing, Event::RenewalsDone(_, _)) => final(self).phase_spec()
                    == Phase::Sleeping && r == Action::Sleep(LONG_SLEEP_SECS),
                (Phase::Sleeping, Event::Woke) => final(self).phase_spec() == Phase::Idle
                    && r is Nothing,
                _ => final(self).phase_spec() == old(self).phase_spec() && r is Nothing,
            },
    {
        match (self.phase, event) {
            (Phase::Idle, Event::Start) => {
                self.phase = Phase::Scanning;
                Action::ListKeys
            },
            (Phase::Scanning, Event::KeysListed(keys)) => {
                self.phase = Phase::Probing;
                Action::ProbeTtls(keys)
            },
            (Phase::Scanning, Event::ScanFailed) | (Phase::Probing, Event::ScanFailed) => {
                self.phase = Phase::Sleeping;
                Action::Sleep(SHORT_SLEEP_SECS)
            },
            (Phase::Probing, Event::TtlsProbed(probes)) => {
                let due = select_for_renewal(&probes, self.threshold);
                let ghost dv = due@;
                let plan = plan_renewals(due, self.rate);
                assert forall|i: int| 0 <= i < plan@.len() implies (#[trigger] plan@[i]).0@
                    == due_keys(probes_view(probes@), self.threshold as int)[i] by {
                    assert(strings_view(dv)[i] == dv[i]@);
                }
                self.phase = Phase::Renewing;
                Action::Renew(plan)
            },
            (Phase::Renewing, Event::RenewalsDone(_, _)) => {
                self.phase = Phase::Sleeping;
                Action::Sleep(LONG_SLEEP_SECS)
            },
            (Phase::Sleeping, Event::Woke) => {
                self.phase = Phase::Idle;
                Action::Nothing
            },
            _ => Action::Nothing,
        }
    }
}

} // verus!
