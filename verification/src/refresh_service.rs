//! What the refresh loop remembers of the accounts: strikes, last successes, refreshes under way.
use crate::token_sync;
use std::time::SystemTime;
use vstd::hash_map::StringHashMap;
use vstd::hash_set::StringHashSet;
use vstd::prelude::*;

verus! {

// ---------------------------------------------------------------------------------------------
// The clock
// ---------------------------------------------------------------------------------------------

/// `SystemTime::elapsed` of the Unix epoch, in whole seconds; nothing when the clock is set before
/// the epoch. Which value it is rests on the clock, so nothing is stated of it.
#[verifier::external_body]
fn clock_seconds() -> (r: Option<u64>) {
    Some(SystemTime::UNIX_EPOCH.elapsed().ok()?.as_secs())
}

/// The machine's clock was asked and showed `reading`.
pub closed spec fn is_clock_answer(reading: Option<u64>) -> bool {
    call_ensures(clock_seconds, (), reading)
}

/// The Unix time of a clock reading; a clock set before the epoch shows 0.
pub open spec fn unix_time(reading: Option<u64>) -> u64 {
    match reading {
        Some(secs) => secs,
        None => 0,
    }
}

/// The Unix time that the machine's clock showed when it was asked.
pub open spec fn is_now(now: u64) -> bool {
    exists|reading: Option<u64>| #[trigger] is_clock_answer(reading) && now == unix_time(reading)
}

/// The Unix time of a clock reading; a clock set before the epoch shows 0.
pub fn unix_seconds(reading: Option<u64>) -> (r: u64)
    ensures
        r == unix_time(reading),
{
    match reading {
        Some(secs) => secs,
        None => 0,
    }
}

/// The Unix time, in seconds.
///
/// It is what [`unix_seconds`] makes of the clock, on which its value rests.
pub fn now_unix() -> (r: u64)
    ensures
        is_now(r),
{
    let reading = clock_seconds();
    assert(is_clock_answer(reading));
    unix_seconds(reading)
}

// ---------------------------------------------------------------------------------------------
// The service
// ---------------------------------------------------------------------------------------------

/// What the refresh loop remembers of each account, by account id.
pub struct TokenRefreshService {
    /// Authentication failures in a row; a success clears them.
    auth_failure_strikes: StringHashMap<u32>,
    /// Unix second of the last successful refresh.
    last_success_unix: StringHashMap<u64>,
    /// Accounts whose refresh is under way.
    in_flight: StringHashSet,
}

/// The contents of a [`TokenRefreshService`].
pub struct ServiceView {
    pub strikes: Map<Seq<char>, u32>,
    pub last_success: Map<Seq<char>, u64>,
    pub in_flight: Set<Seq<char>>,
}

impl View for TokenRefreshService {
    type V = ServiceView;

    closed spec fn view(&self) -> ServiceView {
        ServiceView {
            strikes: self.auth_failure_strikes@,
            last_success: self.last_success_unix@,
            in_flight: self.in_flight@,
        }
    }
}

impl ServiceView {
    /// The strikes of an account; none are on record for most.
    pub open spec fn strikes_of(self, id: Seq<char>) -> u32 {
        if self.strikes.contains_key(id) {
            self.strikes[id]
        } else {
            0
        }
    }

    /// The last success of an account.
    pub open spec fn last_success_of(self, id: Seq<char>) -> Option<u64> {
        if self.last_success.contains_key(id) {
            Some(self.last_success[id])
        } else {
            None
        }
    }

    /// The account is not to be refreshed yet.
    pub open spec fn cooling(self, id: Seq<char>, now: u64) -> bool {
        token_sync::cools_down(self.last_success_of(id), now)
    }

    /// The account's refresh is under way.
    pub open spec fn acquired(self, id: Seq<char>) -> ServiceView {
        ServiceView { in_flight: self.in_flight.insert(id), ..self }
    }

    /// The account's refresh is over.
    pub open spec fn released(self, id: Seq<char>) -> ServiceView {
        ServiceView { in_flight: self.in_flight.remove(id), ..self }
    }

    /// The account has no strikes.
    pub open spec fn cleared(self, id: Seq<char>) -> ServiceView {
        ServiceView { strikes: self.strikes.remove(id), ..self }
    }

    /// The account has one more strike.
    pub open spec fn struck(self, id: Seq<char>) -> ServiceView {
        ServiceView {
            strikes: self.strikes.insert(id, token_sync::one_more_strike(self.strikes_of(id))),
            ..self
        }
    }

    /// The account was refreshed at `now`.
    pub open spec fn succeeded(self, id: Seq<char>, now: u64) -> ServiceView {
        ServiceView { last_success: self.last_success.insert(id, now), ..self }
    }
}

impl TokenRefreshService {
    /// A service that knows of no account yet.
    pub fn new() -> (r: Self)
        ensures
            r@.strikes == Map::<Seq<char>, u32>::empty(),
            r@.last_success == Map::<Seq<char>, u64>::empty(),
            r@.in_flight == Set::<Seq<char>>::empty(),
    {
        TokenRefreshService {
            auth_failure_strikes: StringHashMap::new(),
            last_success_unix: StringHashMap::new(),
            in_flight: StringHashSet::new(),
        }
    }

    /// Reserves an account for a refresh; fails while another one holds it.
    pub fn try_acquire(&mut self, account_id: &str) -> (r: bool)
        ensures
            r == !old(self)@.in_flight.contains(account_id@),
            final(self)@ == if r {
                old(self)@.acquired(account_id@)
            } else {
                old(self)@
            },
    {
        if self.in_flight.contains(account_id) {
            return false;
        }
        self.in_flight.insert(account_id.to_owned());
        true
    }

    /// Gives an account free again.
    pub fn release(&mut self, account_id: &str)
        ensures
            final(self)@ == old(self)@.released(account_id@),
    {
        self.in_flight.remove(account_id);
    }

    /// Forgets the strikes of an account.
    pub fn clear_strikes(&mut self, account_id: &str)
        ensures
            final(self)@ == old(self)@.cleared(account_id@),
    {
        self.auth_failure_strikes.remove(account_id);
    }

    /// Counts an authentication failure: the strikes so far, and whether they disable the
    /// account.
    pub fn bump_strikes(&mut self, account_id: &str) -> (r: (u32, bool))
        ensures
            final(self)@ == old(self)@.struck(account_id@),
            r.0 == final(self)@.strikes_of(account_id@),
            r.1 == token_sync::strikes_disable(r.0),
    {
        let current: u32 = match self.auth_failure_strikes.get(account_id) {
            Some(n) => *n,
            None => 0,
        };
        let (next, disable) = token_sync::record_refresh_auth_failure(current);
        self.auth_failure_strikes.insert(account_id.to_owned(), next);
        (next, disable)
    }

    /// Starts the cooldown of an account at `now`.
    pub fn mark_success_at(&mut self, account_id: &str, now: u64)
        ensures
            final(self)@ == old(self)@.succeeded(account_id@, now),
    {
        self.last_success_unix.insert(account_id.to_owned(), now);
    }

    /// Starts the cooldown of an account, now.
    pub fn mark_success_cooldown(&mut self, account_id: &str)
        ensures
            exists|now: u64| #[trigger]
                is_now(now) && final(self)@ == old(self)@.succeeded(account_id@, now),
    {
        let now = now_unix();
        self.mark_success_at(account_id, now);
    }

    /// Whether an account is cooling down at `now`.
    pub fn in_cooldown_at(&self, account_id: &str, now: u64) -> (r: bool)
        ensures
            r == self@.cooling(account_id@, now),
    {
        let last = match self.last_success_unix.get(account_id) {
            Some(ts) => Some(*ts),
            None => None,
        };
        token_sync::should_skip_refresh_cooldown(last, now)
    }

    /// Whether an account is cooling down, now.
    pub fn in_cooldown(&self, account_id: &str) -> (r: bool)
        ensures
            exists|now: u64| #[trigger] is_now(now) && r == self@.cooling(account_id@, now),
            self@.last_success_of(account_id@) is None ==> !r,
    {
        let now = now_unix();
        self.in_cooldown_at(account_id, now)
    }
}

// ---------------------------------------------------------------------------------------------
// Laws
// ---------------------------------------------------------------------------------------------

/// While an account is held nobody else can acquire it, giving it free undoes acquiring it, and
/// other accounts are not concerned.
pub proof fn law_one_refresh_at_a_time(s: ServiceView, id: Seq<char>, other: Seq<char>)
    ensures
        s.acquired(id).in_flight.contains(id),
        !s.in_flight.contains(id) ==> s.acquired(id).released(id) == s,
        !s.released(id).in_flight.contains(id),
        other != id ==> s.acquired(id).in_flight.contains(other) == s.in_flight.contains(other),
        other != id ==> s.released(id).in_flight.contains(other) == s.in_flight.contains(other),
{
    if !s.in_flight.contains(id) {
        assert(s.in_flight.insert(id).remove(id) =~= s.in_flight);
    }
}

/// Something that can happen to a service.
pub enum ServiceEvent {
    Acquired { id: Seq<char> },
    Released { id: Seq<char> },
    StrikesCleared { id: Seq<char> },
    Struck { id: Seq<char> },
    Succeeded { id: Seq<char>, now: u64 },
}

/// The service after an event.
pub open spec fn after_event(s: ServiceView, event: ServiceEvent) -> ServiceView {
    match event {
        ServiceEvent::Acquired { id } => s.acquired(id),
        ServiceEvent::Released { id } => s.released(id),
        ServiceEvent::StrikesCleared { id } => s.cleared(id),
        ServiceEvent::Struck { id } => s.struck(id),
        ServiceEvent::Succeeded { id, now } => s.succeeded(id, now),
    }
}

/// The service after a series of events.
pub open spec fn after_events(s: ServiceView, events: Seq<ServiceEvent>) -> ServiceView
    decreases events.len(),
{
    if events.len() == 0 {
        s
    } else {
        after_event(after_events(s, events.drop_last()), events.last())
    }
}

/// How often an account failed since its strikes were last cleared, or since the beginning.
pub open spec fn failures_in_a_row(events: Seq<ServiceEvent>, id: Seq<char>) -> nat
    decreases events.len(),
{
    if events.len() == 0 {
        0
    } else if events.last() == (ServiceEvent::StrikesCleared { id }) {
        0
    } else if events.last() == (ServiceEvent::Struck { id }) {
        failures_in_a_row(events.drop_last(), id) + 1
    } else {
        failures_in_a_row(events.drop_last(), id)
    }
}

/// Whatever happened, to this account and to others in between, the strikes of an account are its
/// failures since they were last cleared, and disable it exactly from the third on.
pub proof fn law_strikes_count_failures_in_a_row(
    s: ServiceView,
    id: Seq<char>,
    events: Seq<ServiceEvent>,
)
    requires
        s.strikes_of(id) == 0,
    ensures
        ({
            let failures = failures_in_a_row(events, id);
            let strikes = after_events(s, events).strikes_of(id);
            &&& strikes == token_sync::strikes_after(failures)
            &&& token_sync::strikes_disable(strikes) <==> failures >= 3
        }),
    decreases events.len(),
{
    token_sync::law_third_strike_disables(failures_in_a_row(events, id));
    if events.len() > 0 {
        law_strikes_count_failures_in_a_row(s, id, events.drop_last());
    }
}

/// The strikes of one account leave those of another alone.
pub proof fn law_strikes_are_per_account(s: ServiceView, id: Seq<char>, other: Seq<char>)
    requires
        id != other,
    ensures
        s.struck(id).strikes_of(other) == s.strikes_of(other),
        s.cleared(id).strikes_of(other) == s.strikes_of(other),
{
}

/// After a success an account is left alone for the cooldown, and other accounts as before.
pub proof fn law_success_starts_cooldown(
    s: ServiceView,
    id: Seq<char>,
    other: Seq<char>,
    since: u64,
    now: u64,
)
    ensures
        s.succeeded(id, since).cooling(id, now) <==> now < since + 1800,
        other != id ==> s.succeeded(id, since).cooling(other, now) == s.cooling(other, now),
{
}

/// A clock that shows a time after the epoch is taken at its word, and one before it shows 0.
pub proof fn law_clock_is_taken_at_its_word(secs: u64)
    ensures
        unix_time(Some(secs)) == secs,
        unix_time(None) == 0,
{
}

/// Reserving, giving free, clearing, striking and recording a success each change one thing about
/// one account.
pub proof fn law_each_step_changes_one_thing(s: ServiceView, id: Seq<char>, now: u64)
    ensures
        s.acquired(id).in_flight == s.in_flight.insert(id),
        s.acquired(id).strikes == s.strikes,
        s.acquired(id).last_success == s.last_success,
        s.released(id).in_flight == s.in_flight.remove(id),
        s.released(id).strikes == s.strikes,
        s.released(id).last_success == s.last_success,
        s.cleared(id).in_flight == s.in_flight,
        s.cleared(id).last_success == s.last_success,
        !s.cleared(id).strikes.contains_key(id),
        forall|other: Seq<char>|
            other != id ==> (s.cleared(id).strikes.contains_key(other) <==>
                #[trigger] s.strikes.contains_key(other)) && s.cleared(id).strikes[other]
                == s.strikes[other],
        s.struck(id).in_flight == s.in_flight,
        s.struck(id).last_success == s.last_success,
        s.struck(id).strikes.contains_key(id),
        s.strikes.contains_key(id) && s.strikes[id] < u32::MAX ==> s.struck(id).strikes[id]
            == s.strikes[id] + 1,
        s.strikes.contains_key(id) && s.strikes[id] == u32::MAX ==> s.struck(id).strikes[id]
            == u32::MAX,
        !s.strikes.contains_key(id) ==> s.struck(id).strikes[id] == 1,
        forall|other: Seq<char>|
            other != id ==> (s.struck(id).strikes.contains_key(other) <==>
                #[trigger] s.strikes.contains_key(other)) && s.struck(id).strikes[other]
                == s.strikes[other],
        s.succeeded(id, now).in_flight == s.in_flight,
        s.succeeded(id, now).strikes == s.strikes,
        s.succeeded(id, now).last_success == s.last_success.insert(id, now),
{
}

/// An account cools down exactly when it has a last success and less than half an hour has passed
/// since.
pub proof fn law_cooldown_lasts_half_an_hour(s: ServiceView, id: Seq<char>, now: u64)
    ensures
        s.cooling(id, now) <==> s.last_success.contains_key(id) && now - s.last_success[id] < 1800,
        s.last_success_of(id) is Some <==> s.last_success.contains_key(id),
        s.last_success_of(id) matches Some(at) ==> at == s.last_success[id],
        s.strikes_of(id) == if s.strikes.contains_key(id) {
            s.strikes[id]
        } else {
            0
        },
{
}

/// Whether an account cools down now is judged by the time on the clock: never without a success
/// on record, and always while less than half an hour has passed since it.
pub proof fn law_cooldown_is_judged_by_the_clock(
    service: TokenRefreshService,
    id: &str,
    now: u64,
    at: bool,
    today: bool,
)
    requires
        call_ensures(TokenRefreshService::in_cooldown_at, (&service, id, now), at),
        call_ensures(TokenRefreshService::in_cooldown, (&service, id), today),
    ensures
        at <==> service@.last_success.contains_key(id@) && now - service@.last_success[id@] < 1800,
        today ==> service@.last_success.contains_key(id@),
        exists|shown: u64| #[trigger]
            is_now(shown) && (today <==> service@.last_success.contains_key(id@) && shown
                - service@.last_success[id@] < 1800),
{
    let shown = choose|shown: u64| #[trigger]
        is_now(shown) && today == service@.cooling(id@, shown);
    assert(is_now(shown));
}

} // verus!
