//! One pass of the refresh loop over all accounts.
//!
//! A [`RefreshPass`] stands at one account at a time: at one that may be refreshed at all. Its
//! expiry is checked outside; if the account is then due it is reserved and refreshed (see
//! [`crate::refresh_run`]), and the pass goes on when the refresh is over.
use crate::account;
use crate::account::{Account, AccountView};
use crate::refresh_service::{ServiceView, TokenRefreshService};
use crate::text;
use vstd::prelude::*;

verus! {

/// A pass over the accounts as they were when it began.
pub struct RefreshPass {
    accounts: Vec<Account>,
    next: usize,
    refreshing: bool,
    any_changed: bool,
}

/// The contents of a [`RefreshPass`].
pub struct PassView {
    pub accounts: Seq<AccountView>,
    /// Where the pass stands; behind the last account when it is over.
    pub next: int,
    /// The account there is reserved and being refreshed.
    pub refreshing: bool,
    /// Some refresh changed the store.
    pub any_changed: bool,
}

impl View for RefreshPass {
    type V = PassView;

    closed spec fn view(&self) -> PassView {
        PassView {
            accounts: account::accounts_view(self.accounts@),
            next: self.next as int,
            refreshing: self.refreshing,
            any_changed: self.any_changed,
        }
    }
}

/// The account may be refreshed: it is in good standing and has an expiry.
pub open spec fn may_refresh(a: AccountView) -> bool {
    a.status != "invalid"@ && a.status != "banned"@ && a.expires_at is Some
}

/// The first position from `from` on whose account may be refreshed; behind the last one if
/// there is none.
pub open spec fn next_candidate(accounts: Seq<AccountView>, from: int) -> int
    decreases accounts.len() - from,
{
    if 0 <= from < accounts.len() {
        if may_refresh(accounts[from]) {
            from
        } else {
            next_candidate(accounts, from + 1)
        }
    } else {
        accounts.len() as int
    }
}

impl PassView {
    /// The pass is over.
    pub open spec fn is_over(self) -> bool {
        self.next >= self.accounts.len()
    }

    /// The pass stands at an account that may be refreshed, or is over; it refreshes none when
    /// it is over.
    pub open spec fn well_formed(self) -> bool {
        &&& 0 <= self.next <= self.accounts.len()
        &&& self.next < self.accounts.len() ==> may_refresh(self.accounts[self.next])
        &&& self.refreshing ==> self.next < self.accounts.len()
    }

    /// The account that the pass stands at.
    pub open spec fn here(self) -> AccountView {
        self.accounts[self.next]
    }

    /// The pass at the next account that may be refreshed.
    pub open spec fn moved_on(self) -> PassView {
        PassView {
            next: next_candidate(self.accounts, self.next + 1),
            refreshing: false,
            ..self
        }
    }
}

/// A pass that has just begun.
pub open spec fn new_pass(accounts: Seq<AccountView>) -> PassView {
    PassView {
        accounts,
        next: next_candidate(accounts, 0),
        refreshing: false,
        any_changed: false,
    }
}

/// The account is due: its token is about to expire, it is not cooling down, and nobody else
/// refreshes it.
pub open spec fn is_due(a: AccountView, service: ServiceView, expiring: bool, now: u64) -> bool {
    expiring && !service.cooling(a.id, now) && !service.in_flight.contains(a.id)
}

/// Whether the token of the account is about to expire was found out.
pub open spec fn after_expiry_check(
    pass: PassView,
    service: ServiceView,
    expiring: bool,
    now: u64,
) -> (PassView, ServiceView) {
    if pass.is_over() || pass.refreshing {
        (pass, service)
    } else if is_due(pass.here(), service, expiring, now) {
        (PassView { refreshing: true, ..pass }, service.acquired(pass.here().id))
    } else {
        (pass.moved_on(), service)
    }
}

/// The refresh of the account is over.
pub open spec fn after_refresh(pass: PassView, service: ServiceView, changed: bool) -> (
    PassView,
    ServiceView,
) {
    if pass.refreshing {
        (
            PassView { any_changed: pass.any_changed || changed, ..pass }.moved_on(),
            service.released(pass.here().id),
        )
    } else {
        (pass, service)
    }
}

/// The position that `next_candidate` names.
pub proof fn lemma_next_candidate(accounts: Seq<AccountView>, from: int)
    requires
        0 <= from <= accounts.len(),
    ensures
        from <= next_candidate(accounts, from) <= accounts.len(),
        next_candidate(accounts, from) < accounts.len() ==> may_refresh(
            accounts[next_candidate(accounts, from)],
        ),
        forall|j: int|
            from <= j < next_candidate(accounts, from) ==> !may_refresh(#[trigger] accounts[j]),
    decreases accounts.len() - from,
{
    if from < accounts.len() && !may_refresh(accounts[from]) {
        lemma_next_candidate(accounts, from + 1);
    }
}

impl RefreshPass {
    /// Begins a pass over these accounts.
    pub fn new(accounts: Vec<Account>) -> (r: RefreshPass)
        ensures
            r@ == new_pass(account::accounts_view(accounts@)),
            r@.well_formed(),
    {
        let mut r = RefreshPass { accounts, next: 0, refreshing: false, any_changed: false };
        r.seek();
        r
    }

    /// Moves on to the first account from here on that may be refreshed.
    fn seek(&mut self)
        requires
            old(self).next <= old(self).accounts.len(),
        ensures
            final(self)@ == (PassView {
                next: next_candidate(old(self)@.accounts, old(self)@.next),
                ..old(self)@
            }),
            final(self).accounts == old(self).accounts,
            old(self).next <= final(self).next <= final(self).accounts.len(),
            final(self).next < final(self).accounts.len() ==> may_refresh(
                final(self).accounts[final(self).next as int]@,
            ),
    {
        let ghost start = self@;
        while self.next < self.accounts.len()
            invariant
                self.accounts == old(self).accounts,
                self.refreshing == old(self).refreshing,
                self.any_changed == old(self).any_changed,
                start == old(self)@,
                old(self).next <= self.next <= self.accounts.len(),
                next_candidate(start.accounts, start.next) == next_candidate(
                    start.accounts,
                    self.next as int,
                ),
            ensures
                self.accounts == old(self).accounts,
                self.refreshing == old(self).refreshing,
                self.any_changed == old(self).any_changed,
                old(self).next <= self.next <= self.accounts.len(),
                self.next == next_candidate(start.accounts, start.next),
                self.next < self.accounts.len() ==> may_refresh(
                    self.accounts[self.next as int]@,
                ),
            decreases self.accounts.len() - self.next,
        {
            let a = &self.accounts[self.next];
            assert(start.accounts[self.next as int] == a@);
            if !text::same_text(a.status.as_str(), "invalid") && !text::same_text(
                a.status.as_str(),
                "banned",
            ) && a.expires_at.is_some() {
                break;
            }
            self.next = self.next + 1;
        }
    }

    /// Whether the pass is over.
    pub fn is_over(&self) -> (r: bool)
        ensures
            r == self@.is_over(),
    {
        self.next >= self.accounts.len()
    }

    /// The account that the pass stands at; nothing when it is over.
    pub fn current(&self) -> (r: Option<&Account>)
        ensures
            match r {
                Some(a) => !self@.is_over() && a@ == self@.here(),
                None => self@.is_over(),
            },
    {
        if self.next < self.accounts.len() {
            assert(self@.here() == self.accounts[self.next as int]@);
            Some(&self.accounts[self.next])
        } else {
            None
        }
    }

    /// Whether the account that the pass stands at is reserved and being refreshed.
    pub fn is_refreshing(&self) -> (r: bool)
        ensures
            r == self@.refreshing,
    {
        self.refreshing
    }

    /// Whether the change of the accounts is to be announced: the pass is over and some refresh
    /// changed the store.
    pub fn should_announce(&self) -> (r: bool)
        ensures
            r == (self@.is_over() && self@.any_changed),
    {
        self.next >= self.accounts.len() && self.any_changed
    }

    /// Whether the token of the account is about to expire was found out. `now` is Unix time.
    pub fn on_expiry_checked(
        &mut self,
        service: &mut TokenRefreshService,
        expiring: bool,
        now: u64,
    )
        requires
            old(self)@.well_formed(),
        ensures
            (final(self)@, final(service)@) == after_expiry_check(
                old(self)@,
                old(service)@,
                expiring,
                now,
            ),
            final(self)@.well_formed(),
    {
        if self.next >= self.accounts.len() || self.refreshing {
            return;
        }
        let a = &self.accounts[self.next];
        assert(self@.here() == a@);
        if expiring && !service.in_cooldown_at(a.id.as_str(), now) && service.try_acquire(
            a.id.as_str(),
        ) {
            self.refreshing = true;
        } else {
            self.next = self.next + 1;
            self.seek();
        }
    }

    /// The refresh of the account is over; `changed` says whether it changed the store.
    pub fn on_refreshed(&mut self, service: &mut TokenRefreshService, changed: bool)
        requires
            old(self)@.well_formed(),
        ensures
            (final(self)@, final(service)@) == after_refresh(old(self)@, old(service)@, changed),
            final(self)@.well_formed(),
    {
        if !self.refreshing {
            return;
        }
        assert(self.next < self.accounts.len());
        assert(self@.here() == self.accounts[self.next as int]@);
        service.release(self.accounts[self.next].id.as_str());
        self.any_changed = self.any_changed || changed;
        self.refreshing = false;
        self.next = self.next + 1;
        self.seek();
    }
}

// ---------------------------------------------------------------------------------------------
// Laws
// ---------------------------------------------------------------------------------------------

/// Something that can happen to a pass.
pub enum PassEvent {
    ExpiryChecked { expiring: bool, now: u64 },
    /// The refresh of the account is over. It may have changed strikes and last successes, but
    /// no reservation.
    Refreshed { changed: bool, strikes: Map<Seq<char>, u32>, last_success: Map<Seq<char>, u64> },
}

/// Pass and service after an event.
pub open spec fn after_event(pass: PassView, service: ServiceView, event: PassEvent) -> (
    PassView,
    ServiceView,
) {
    match event {
        PassEvent::ExpiryChecked { expiring, now } => after_expiry_check(
            pass,
            service,
            expiring,
            now,
        ),
        PassEvent::Refreshed { changed, strikes, last_success } => after_refresh(
            pass,
            ServiceView { strikes, last_success, ..service },
            changed,
        ),
    }
}

/// Pass and service after a series of events.
pub open spec fn after_events(pass: PassView, service: ServiceView, events: Seq<PassEvent>) -> (
    PassView,
    ServiceView,
)
    decreases events.len(),
{
    if events.len() == 0 {
        (pass, service)
    } else {
        let (p, s) = after_events(pass, service, events.drop_last());
        after_event(p, s, events.last())
    }
}

/// The event reports a changed store.
pub open spec fn reports_change(event: PassEvent) -> bool {
    match event {
        PassEvent::Refreshed { changed, .. } => changed,
        _ => false,
    }
}

/// During the pass the refresh of some reserved account reported a changed store.
pub open spec fn some_change(
    accounts: Seq<AccountView>,
    service: ServiceView,
    events: Seq<PassEvent>,
) -> bool {
    exists|i: int|
        0 <= i < events.len() && reports_change(#[trigger] events[i]) && after_events(
            new_pass(accounts),
            service,
            events.take(i),
        ).0.refreshing
}

/// Whatever happens, a pass holds no reservation but that of the account it is refreshing, one
/// that nobody held before; when it is over it has given back all it took. It keeps to accounts
/// that may be refreshed.
pub proof fn law_pass_gives_back_reservations(
    accounts: Seq<AccountView>,
    service: ServiceView,
    events: Seq<PassEvent>,
)
    ensures
        ({
            let (p, s) = after_events(new_pass(accounts), service, events);
            &&& p.well_formed()
            &&& p.accounts == accounts
            &&& p.refreshing ==> !service.in_flight.contains(p.here().id) && s.in_flight
                == service.in_flight.insert(p.here().id)
            &&& !p.refreshing ==> s.in_flight == service.in_flight
            &&& p.is_over() ==> s.in_flight == service.in_flight
        }),
    decreases events.len(),
{
    if events.len() == 0 {
        lemma_next_candidate(accounts, 0);
    } else {
        law_pass_gives_back_reservations(accounts, service, events.drop_last());
        let (p, s) = after_events(new_pass(accounts), service, events.drop_last());
        if p.next < accounts.len() {
            lemma_next_candidate(accounts, p.next + 1);
            assert(service.in_flight.contains(p.here().id) || service.in_flight.insert(
                p.here().id,
            ).remove(p.here().id) =~= service.in_flight);
        }
    }
}

/// Every event that concerns the pass takes it forward: it reserves the account it stands at or
/// moves on to a later one. An account is never refreshed twice in a pass.
pub proof fn law_pass_moves_forward(pass: PassView, service: ServiceView, event: PassEvent)
    requires
        pass.well_formed(),
    ensures
        ({
            let (p, s) = after_event(pass, service, event);
            ||| p.next > pass.next
            ||| p.next == pass.next && p.refreshing && !pass.refreshing
            ||| p == pass
        }),
{
    if pass.next < pass.accounts.len() {
        lemma_next_candidate(pass.accounts, pass.next + 1);
    }
}

/// A check of an account during a pass.
pub struct Check {
    pub position: int,
    /// The account was due at that moment.
    pub due: bool,
}

/// The checks that a pass went through, in their order.
pub open spec fn checks_of(
    accounts: Seq<AccountView>,
    service: ServiceView,
    events: Seq<PassEvent>,
) -> Seq<Check>
    decreases events.len(),
{
    if events.len() == 0 {
        Seq::empty()
    } else {
        let earlier = checks_of(accounts, service, events.drop_last());
        let (p, s) = after_events(new_pass(accounts), service, events.drop_last());
        match events.last() {
            PassEvent::ExpiryChecked { expiring, now } if !p.is_over() && !p.refreshing => {
                earlier.push(Check { position: p.next, due: is_due(p.here(), s, expiring, now) })
            },
            _ => earlier,
        }
    }
}

/// The positions of the accounts that a pass reserved, in their order.
pub open spec fn reservations_of(
    accounts: Seq<AccountView>,
    service: ServiceView,
    events: Seq<PassEvent>,
) -> Seq<int>
    decreases events.len(),
{
    if events.len() == 0 {
        Seq::empty()
    } else {
        let earlier = reservations_of(accounts, service, events.drop_last());
        let (p, s) = after_events(new_pass(accounts), service, events.drop_last());
        let (q, t) = after_event(p, s, events.last());
        if !p.refreshing && q.refreshing {
            earlier.push(q.next)
        } else {
            earlier
        }
    }
}

/// Some check found the account at this position due.
pub open spec fn was_found_due(checks: Seq<Check>, position: int) -> bool {
    exists|k: int|
        0 <= k < checks.len() && (#[trigger] checks[k]).position == position && checks[k].due
}

/// Some check was of the account at this position.
pub open spec fn was_checked(checks: Seq<Check>, position: int) -> bool {
    exists|k: int| 0 <= k < checks.len() && (#[trigger] checks[k]).position == position
}

/// Whatever happens, a pass checks accounts that may be refreshed, each at most once and in the
/// order of the store, and reserves exactly those that it finds due, in the same order. By the
/// time it is over it has checked every account that may be refreshed.
pub proof fn law_pass_reserves_the_due_accounts(
    accounts: Seq<AccountView>,
    service: ServiceView,
    events: Seq<PassEvent>,
)
    ensures
        ({
            let p = after_events(new_pass(accounts), service, events).0;
            let checks = checks_of(accounts, service, events);
            let reserved = reservations_of(accounts, service, events);
            &&& forall|k: int|
                0 <= k < checks.len() ==> 0 <= (#[trigger] checks[k]).position < accounts.len()
                    && may_refresh(accounts[checks[k].position])
            &&& forall|k: int, m: int|
                0 <= k < m < checks.len() ==> (#[trigger] checks[k]).position < (
                #[trigger] checks[m]).position
            &&& forall|k: int, m: int|
                0 <= k < m < reserved.len() ==> #[trigger] reserved[k] < #[trigger] reserved[m]
            &&& forall|i: int| #[trigger] reserved.contains(i) <==> was_found_due(checks, i)
            &&& p.is_over() ==> forall|i: int|
                0 <= i < accounts.len() && may_refresh(accounts[i]) ==> #[trigger] was_checked(
                    checks,
                    i,
                )
        }),
{
    lemma_checks_lie_behind(accounts, service, events);
    law_pass_gives_back_reservations(accounts, service, events);
}

proof fn lemma_checks_lie_behind(
    accounts: Seq<AccountView>,
    service: ServiceView,
    events: Seq<PassEvent>,
)
    ensures
        ({
            let p = after_events(new_pass(accounts), service, events).0;
            let checks = checks_of(accounts, service, events);
            let reserved = reservations_of(accounts, service, events);
            let end = if p.refreshing {
                p.next + 1
            } else {
                p.next
            };
            &&& forall|k: int|
                0 <= k < checks.len() ==> 0 <= (#[trigger] checks[k]).position < accounts.len()
                    && checks[k].position < end && may_refresh(accounts[checks[k].position])
            &&& forall|k: int| 0 <= k < reserved.len() ==> #[trigger] reserved[k] < end
            &&& forall|k: int, m: int|
                0 <= k < m < checks.len() ==> (#[trigger] checks[k]).position < (
                #[trigger] checks[m]).position
            &&& forall|k: int, m: int|
                0 <= k < m < reserved.len() ==> #[trigger] reserved[k] < #[trigger] reserved[m]
            &&& forall|i: int| #[trigger] reserved.contains(i) <==> was_found_due(checks, i)
            &&& forall|i: int|
                0 <= i < end && may_refresh(accounts[i]) ==> #[trigger] was_checked(checks, i)
        }),
    decreases events.len(),
{
    if events.len() == 0 {
        lemma_next_candidate(accounts, 0);
    } else {
        let before = events.drop_last();
        lemma_checks_lie_behind(accounts, service, before);
        law_pass_gives_back_reservations(accounts, service, before);
        let (p, s) = after_events(new_pass(accounts), service, before);
        let (q, t) = after_event(p, s, events.last());
        let old_checks = checks_of(accounts, service, before);
        let checks = checks_of(accounts, service, events);
        let old_reserved = reservations_of(accounts, service, before);
        let reserved = reservations_of(accounts, service, events);
        if p.next < accounts.len() {
            lemma_next_candidate(accounts, p.next + 1);
        }
        assert forall|i: int| #[trigger] reserved.contains(i) <==> was_found_due(checks, i) by {
            assert(old_reserved.contains(i) <==> was_found_due(old_checks, i));
            if was_found_due(old_checks, i) {
                let k = choose|k: int|
                    0 <= k < old_checks.len() && (#[trigger] old_checks[k]).position == i
                        && old_checks[k].due;
                assert(checks[k] == old_checks[k]);
            }
            if old_reserved.contains(i) {
                let k = choose|k: int| 0 <= k < old_reserved.len() && old_reserved[k] == i;
                assert(reserved[k] == i);
            }
            if reserved.len() > old_reserved.len() {
                assert(reserved[old_reserved.len() as int] == p.next);
                assert(checks[old_checks.len() as int].position == p.next);
            }
        }
        assert forall|i: int|
            0 <= i < (if q.refreshing { q.next + 1 } else { q.next }) && may_refresh(
                accounts[i],
            ) implies #[trigger] was_checked(checks, i) by {
            if was_checked(old_checks, i) {
                let k = choose|k: int|
                    0 <= k < old_checks.len() && (#[trigger] old_checks[k]).position == i;
                assert(checks[k] == old_checks[k]);
            } else {
                assert(i >= p.next);
                if checks.len() > old_checks.len() {
                    assert(checks[old_checks.len() as int].position == p.next);
                }
            }
        }
    }
}

/// A pass that is over announces a change exactly if the refresh of some account that it reserved
/// reported one.
pub proof fn law_announcement_tells_of_a_change(
    accounts: Seq<AccountView>,
    service: ServiceView,
    events: Seq<PassEvent>,
)
    ensures
        after_events(new_pass(accounts), service, events).0.any_changed <==> some_change(
            accounts,
            service,
            events,
        ),
    decreases events.len(),
{
    if events.len() > 0 {
        let earlier = events.drop_last();
        let last = events.len() - 1;
        law_announcement_tells_of_a_change(accounts, service, earlier);
        assert(events.take(last) == earlier);
        assert(events[last] == events.last());
        assert forall|i: int| 0 <= i < last implies events.take(i) == #[trigger] earlier.take(
            i,
        ) by {}
        if some_change(accounts, service, earlier) {
            let i = choose|i: int|
                0 <= i < earlier.len() && reports_change(#[trigger] earlier[i]) && after_events(
                    new_pass(accounts),
                    service,
                    earlier.take(i),
                ).0.refreshing;
            assert(events[i] == earlier[i] && events.take(i) == earlier.take(i));
        }
        if some_change(accounts, service, events) {
            let i = choose|i: int|
                0 <= i < events.len() && reports_change(#[trigger] events[i]) && after_events(
                    new_pass(accounts),
                    service,
                    events.take(i),
                ).0.refreshing;
            if i < last {
                assert(earlier[i] == events[i] && events.take(i) == earlier.take(i));
            }
        }
    }
}

/// A change that was reported for a reserved account is not forgotten.
pub proof fn law_change_is_kept(pass: PassView, service: ServiceView, event: PassEvent)
    ensures
        pass.any_changed ==> after_event(pass, service, event).0.any_changed,
        pass.refreshing ==> after_refresh(pass, service, true).0.any_changed,
{
}

/// An account that is cooling down, held by another refresh or not about to expire is passed
/// over, and nothing is reserved for it.
pub proof fn law_account_that_is_not_due_is_passed_over(
    pass: PassView,
    service: ServiceView,
    expiring: bool,
    now: u64,
)
    requires
        pass.well_formed(),
        !pass.is_over(),
        !pass.refreshing,
        !expiring || service.cooling(pass.here().id, now) || service.in_flight.contains(
            pass.here().id,
        ),
    ensures
        after_expiry_check(pass, service, expiring, now) == (pass.moved_on(), service),
{
}

/// Accounts that are invalid or banned, such as one that a refresh has disabled, are never
/// stood at.
pub proof fn law_disabled_account_is_left_alone(a: AccountView)
    ensures
        !may_refresh(crate::refresh_run::disabled(a)),
        a.status == "banned"@ ==> !may_refresh(a),
{
}

/// Neither invalid nor banned, and with an expiry.
pub open spec fn is_in_good_standing(a: AccountView) -> bool {
    !(a.status == "invalid"@) && !(a.status == "banned"@) && a.expires_at is Some
}

/// `next` is the first position from `from` on with an account in good standing, or lies behind
/// the last account when there is none.
pub open spec fn is_next_in_good_standing(
    accounts: Seq<AccountView>,
    from: int,
    next: int,
) -> bool {
    &&& from <= next <= accounts.len()
    &&& forall|j: int| from <= j < next ==> !is_in_good_standing(#[trigger] accounts[j])
    &&& next < accounts.len() ==> is_in_good_standing(accounts[next])
}

proof fn lemma_next_in_good_standing(accounts: Seq<AccountView>, from: int)
    requires
        0 <= from <= accounts.len(),
    ensures
        is_next_in_good_standing(accounts, from, next_candidate(accounts, from)),
{
    lemma_next_candidate(accounts, from);
    assert forall|j: int| from <= j < next_candidate(accounts, from) implies !is_in_good_standing(
        #[trigger] accounts[j],
    ) by {
        assert(!may_refresh(accounts[j]));
    }
}

/// A pass begins at the first account in good standing, with nothing reserved and no change.
pub proof fn law_pass_begins_at_the_first_in_good_standing(accounts: Seq<AccountView>)
    ensures
        ({
            let p = new_pass(accounts);
            &&& p.accounts == accounts
            &&& is_next_in_good_standing(accounts, 0, p.next)
            &&& !p.refreshing
            &&& !p.any_changed
            &&& p.is_over() <==> p.next == accounts.len()
        }),
{
    lemma_next_in_good_standing(accounts, 0);
}

/// An account whose token is about to expire, that was not refreshed successfully in the last half
/// hour and that nobody else refreshes is reserved: the pass stays with it and the account is in
/// flight. Any other account is passed over for the next one in good standing, with nothing
/// recorded.
pub proof fn law_due_account_is_reserved(
    pass: PassView,
    service: ServiceView,
    expiring: bool,
    now: u64,
)
    requires
        0 <= pass.next < pass.accounts.len(),
        !pass.refreshing,
    ensures
        ({
            let (p, s) = after_expiry_check(pass, service, expiring, now);
            let id = pass.accounts[pass.next].id;
            let rested = !service.last_success.contains_key(id) || now - service.last_success[id]
                >= 1800;
            let due = expiring && rested && !service.in_flight.contains(id);
            &&& due ==> {
                &&& p.refreshing
                &&& p.next == pass.next
                &&& s.in_flight == service.in_flight.insert(id)
            }
            &&& !due ==> {
                &&& !p.refreshing
                &&& is_next_in_good_standing(pass.accounts, pass.next + 1, p.next)
                &&& s.in_flight == service.in_flight
            }
            &&& p.accounts == pass.accounts
            &&& p.any_changed == pass.any_changed
            &&& s.strikes == service.strikes
            &&& s.last_success == service.last_success
        }),
{
    lemma_next_in_good_standing(pass.accounts, pass.next + 1);
}

/// When a refresh is over its account is given free, a change is remembered, and the pass goes on
/// to the next account in good standing.
pub proof fn law_refreshed_account_is_given_free(
    pass: PassView,
    service: ServiceView,
    changed: bool,
)
    requires
        0 <= pass.next < pass.accounts.len(),
        pass.refreshing,
    ensures
        ({
            let (p, s) = after_refresh(pass, service, changed);
            &&& s.in_flight == service.in_flight.remove(pass.accounts[pass.next].id)
            &&& s.strikes == service.strikes
            &&& s.last_success == service.last_success
            &&& p.accounts == pass.accounts
            &&& is_next_in_good_standing(pass.accounts, pass.next + 1, p.next)
            &&& !p.refreshing
            &&& p.any_changed <==> pass.any_changed || changed
        }),
{
    lemma_next_in_good_standing(pass.accounts, pass.next + 1);
}

/// What does not concern the pass leaves pass and service as they are: a check when it is over or
/// refreshes an account, and the end of a refresh when it refreshes none.
pub proof fn law_misplaced_outcome_is_ignored(
    pass: PassView,
    service: ServiceView,
    expiring: bool,
    changed: bool,
    now: u64,
)
    ensures
        pass.refreshing || pass.next >= pass.accounts.len() ==> after_expiry_check(
            pass,
            service,
            expiring,
            now,
        ) == (pass, service),
        !pass.refreshing ==> after_refresh(pass, service, changed) == (pass, service),
        pass.is_over() <==> pass.next >= pass.accounts.len(),
{
}

} // verus!
