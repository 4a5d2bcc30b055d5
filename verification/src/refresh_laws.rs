//! What holds of every refresh run.
use crate::account;
use crate::account::{AccountView, LocalTokenView};
use crate::refresh_run;
use crate::refresh_run::{RefreshStage, RunView, StoreWork};
use crate::refresh_service::ServiceView;
use crate::text;
use crate::token_sync;
use vstd::prelude::*;

verus! {

/// Something that can happen to a run.
pub enum RunEvent {
    Refreshed,
    RefreshFailed { message: Seq<char>, refused: bool },
    /// The store was reloaded; between two looks it may have changed at will.
    Store { accounts: Seq<AccountView> },
    Saved { saved: bool, now: u64 },
    IdeSynced,
    IdeToken { local: Option<LocalTokenView>, normalized_expiry: Option<Seq<char>> },
    ExpiryChecked { expired: bool },
}

/// Run and service after an event.
pub open spec fn after_event(run: RunView, service: ServiceView, event: RunEvent) -> (
    RunView,
    ServiceView,
) {
    match event {
        RunEvent::Refreshed => (refresh_run::after_refresh(run), service),
        RunEvent::RefreshFailed { message, refused } => (
            refresh_run::after_refresh_failure(run, message, refused),
            service,
        ),
        RunEvent::Store { accounts } => {
            let step = refresh_run::after_store(run, service, accounts);
            (step.run, step.service)
        },
        RunEvent::Saved { saved, now } => refresh_run::after_save(run, service, saved, now),
        RunEvent::IdeSynced => (refresh_run::after_ide_sync(run), service),
        RunEvent::IdeToken { local, normalized_expiry } => (
            refresh_run::after_ide_token(run, local, normalized_expiry),
            service,
        ),
        RunEvent::ExpiryChecked { expired } => refresh_run::after_expiry_check(
            run,
            service,
            expired,
        ),
    }
}

/// Run and service after a series of events.
pub open spec fn after_events(run: RunView, service: ServiceView, events: Seq<RunEvent>) -> (
    RunView,
    ServiceView,
)
    decreases events.len(),
{
    if events.len() == 0 {
        (run, service)
    } else {
        let (r, s) = after_events(run, service, events.drop_last());
        after_event(r, s, events.last())
    }
}

/// How many stages can still lie ahead.
pub open spec fn stages_ahead(stage: RefreshStage) -> nat {
    match stage {
        RefreshStage::Requesting => 9,
        RefreshStage::Checking => 8,
        RefreshStage::ReadingIde => 7,
        RefreshStage::Rescuing => 6,
        RefreshStage::Retrying => 5,
        RefreshStage::Storing => 3,
        RefreshStage::Saving => 2,
        RefreshStage::Syncing => 1,
        RefreshStage::Judging => 2,
        RefreshStage::Disabling => 1,
        RefreshStage::Finished(_) => 0,
    }
}

/// An event that belongs to the stage brings the run closer to its end; any other changes
/// nothing. So a run ends, asks for fresh tokens at most twice, and never goes back.
pub proof fn law_every_event_leads_on(run: RunView, service: ServiceView, event: RunEvent)
    ensures
        ({
            let (r, s) = after_event(run, service, event);
            stages_ahead(r.stage) < stages_ahead(run.stage) || (r == run && s == service)
        }),
{
}

/// A finished run stays as it is.
pub proof fn law_finished_run_rests(run: RunView, service: ServiceView, event: RunEvent)
    requires
        run.stage is Finished,
    ensures
        after_event(run, service, event) == (run, service),
{
}

/// At every stage that is not finished there is an event that leads on.
pub proof fn law_no_stage_is_a_dead_end(run: RunView, service: ServiceView, accounts: Seq<AccountView>)
    requires
        !(run.stage is Finished),
    ensures
        exists|event: RunEvent| (#[trigger] after_event(run, service, event)).0.stage != run.stage,
{
    let event = match run.stage {
        RefreshStage::Requesting => RunEvent::Refreshed,
        RefreshStage::Retrying => RunEvent::Refreshed,
        RefreshStage::Saving => RunEvent::Saved { saved: true, now: 0 },
        RefreshStage::Syncing => RunEvent::IdeSynced,
        RefreshStage::ReadingIde => RunEvent::IdeToken { local: None, normalized_expiry: None },
        RefreshStage::Judging => RunEvent::ExpiryChecked { expired: false },
        _ => RunEvent::Store { accounts },
    };
    assert(after_event(run, service, event).0.stage != run.stage);
}

/// What a run has done to the books by the time it is at its stage.
pub open spec fn books_kept(a: AccountView, before: ServiceView, run: RunView, now: ServiceView) -> bool {
    let id = a.id;
    let n = before.strikes_of(id);
    let m = now.strikes_of(id);
    &&& run.account == a
    &&& run.target.id == id
    &&& now.in_flight == before.in_flight
    &&& forall|other: Seq<char>|
        other != id ==> #[trigger] now.strikes_of(other) == before.strikes_of(other)
    &&& forall|other: Seq<char>|
        other != id ==> #[trigger] now.last_success_of(other) == before.last_success_of(other)
    &&& match run.stage {
        RefreshStage::Syncing => m == 0 && now.last_success_of(id) is Some,
        RefreshStage::Disabling => m == token_sync::one_more_strike(n) && m >= 3
            && now.last_success_of(id) == before.last_success_of(id),
        RefreshStage::Finished(true) => (m == 0 && now.last_success_of(id) is Some) || (m
            == token_sync::one_more_strike(n) && m >= 3 && now.last_success_of(id)
            == before.last_success_of(id)),
        RefreshStage::Finished(false) => (m == n || m == 0 || m == token_sync::one_more_strike(n))
            && now.last_success_of(id) == before.last_success_of(id),
        _ => m == n && now.last_success_of(id) == before.last_success_of(id),
    }
}

/// Whatever happens, a run adds at most one strike to its account, reaches the disabling of it
/// only with the third strike, records a success only with the strikes cleared, leaves the
/// books of other accounts alone, and touches no reservation.
pub proof fn law_run_keeps_the_books(a: AccountView, service: ServiceView, events: Seq<RunEvent>)
    ensures
        ({
            let (r, s) = after_events(refresh_run::new_run(a), service, events);
            books_kept(a, service, r, s)
        }),
    decreases events.len(),
{
    if events.len() > 0 {
        law_run_keeps_the_books(a, service, events.drop_last());
        let (r, s) = after_events(refresh_run::new_run(a), service, events.drop_last());
        lemma_event_keeps_the_books(a, service, r, s, events.last());
    }
}

proof fn lemma_event_keeps_the_books(
    a: AccountView,
    before: ServiceView,
    run: RunView,
    service: ServiceView,
    event: RunEvent,
)
    requires
        books_kept(a, before, run, service),
    ensures
        ({
            let (r, s) = after_event(run, service, event);
            books_kept(a, before, r, s)
        }),
{
    match event {
        RunEvent::Store { accounts } => {
            account::lemma_first_where(accounts, account::with_id(run.account.id));
        },
        _ => {},
    }
    let (r, s) = after_event(run, service, event);
    assert forall|other: Seq<char>| other != a.id implies #[trigger] s.strikes_of(other)
        == before.strikes_of(other) by {
        assert(service.strikes_of(other) == before.strikes_of(other));
    }
    assert forall|other: Seq<char>| other != a.id implies #[trigger] s.last_success_of(other)
        == before.last_success_of(other) by {
        assert(service.last_success_of(other) == before.last_success_of(other));
    }
}

/// The event has the store saved with something changed in it.
pub open spec fn event_saves(run: RunView, service: ServiceView, event: RunEvent) -> bool {
    match event {
        RunEvent::Store { accounts } => refresh_run::after_store(run, service, accounts).work
            == StoreWork::Save,
        RunEvent::Saved { saved, .. } => saved && run.stage == RefreshStage::Saving,
        _ => false,
    }
}

/// Some event of a series has the store saved with something changed in it.
pub open spec fn some_save(run: RunView, service: ServiceView, events: Seq<RunEvent>) -> bool
    decreases events.len(),
{
    events.len() > 0 && {
        let (r, s) = after_events(run, service, events.drop_last());
        some_save(run, service, events.drop_last()) || event_saves(r, s, events.last())
    }
}

/// A finished run tells of a changed store exactly when it had one saved on its way: fresh tokens,
/// tokens rescued from the IDE, even if they were refused afterwards, or the disabled account.
/// Before its end the same holds, but that fresh tokens tell only once the IDE was brought up to
/// date.
pub proof fn law_finished_run_tells_of_changes(
    a: AccountView,
    service: ServiceView,
    events: Seq<RunEvent>,
)
    ensures
        ({
            let run = refresh_run::new_run(a);
            let r = after_events(run, service, events).0;
            &&& r.stage is Finished ==> r.changed_store() == some_save(run, service, events)
            &&& some_save(run, service, events) <==> r.changed_store() || r.stage
                == RefreshStage::Syncing
        }),
    decreases events.len(),
{
    if events.len() > 0 {
        law_finished_run_tells_of_changes(a, service, events.drop_last());
    }
}

/// A run that rescued tokens from the IDE tells of a changed store from then on, whatever comes of
/// them.
pub proof fn law_rescue_is_told(run: RunView, service: ServiceView, event: RunEvent)
    ensures
        run.changed_store() ==> after_event(run, service, event).0.changed_store(),
        ({
            let r = after_event(run, service, event).0;
            r.rescued && !run.rescued ==> event_saves(run, service, event) && r.changed_store()
        }),
{
}

/// A look into the store changes at most the account that the run is about, keeps its id, and
/// changes the store only where it is saved afterwards.
pub proof fn law_store_changes_one_account(
    run: RunView,
    service: ServiceView,
    accounts: Seq<AccountView>,
)
    ensures
        ({
            let step = refresh_run::after_store(run, service, accounts);
            &&& step.accounts.len() == accounts.len()
            &&& forall|j: int|
                0 <= j < accounts.len() ==> (#[trigger] step.accounts[j]).id == accounts[j].id
            &&& forall|j: int|
                0 <= j < accounts.len() && account::position_of_id(accounts, run.account.id)
                    != Some(j) ==> #[trigger] step.accounts[j] == accounts[j]
            &&& step.work != StoreWork::Save ==> step.accounts == accounts
        }),
{
    account::lemma_first_where(accounts, account::with_id(run.account.id));
}

/// Fresh tokens never replace tokens that came from elsewhere while they were asked for; only
/// tokens rescued from the IDE may.
pub proof fn law_stale_result_is_dropped(
    run: RunView,
    service: ServiceView,
    accounts: Seq<AccountView>,
    i: int,
)
    requires
        run.stage == RefreshStage::Storing,
        !run.rescued,
        account::position_of_id(accounts, run.target.id) == Some(i),
        accounts[i].refresh_token != run.account.refresh_token,
    ensures
        ({
            let step = refresh_run::after_store(run, service, accounts);
            &&& step.run.stage == RefreshStage::Finished(false)
            &&& step.accounts == accounts
            &&& step.service == service
            &&& step.work == StoreWork::Nothing
        }),
{
}

/// As long as no tokens were rescued from the IDE, an account that got other tokens from elsewhere
/// is not disabled for the old ones, and its strikes are forgotten.
pub proof fn law_replaced_tokens_are_not_punished(
    run: RunView,
    service: ServiceView,
    accounts: Seq<AccountView>,
    i: int,
)
    requires
        run.stage == RefreshStage::Checking || (run.stage == RefreshStage::Disabling
            && !run.rescued),
        account::position_of_id(accounts, run.account.id) == Some(i),
        accounts[i].refresh_token != run.account.refresh_token,
    ensures
        ({
            let step = refresh_run::after_store(run, service, accounts);
            &&& step.run.stage == RefreshStage::Finished(false)
            &&& step.accounts == accounts
            &&& step.service.strikes_of(run.account.id) == 0
        }),
{
}

/// A refusal while the token has not expired costs nothing and ends the run without disabling
/// the account.
pub proof fn law_unexpired_token_gets_no_strike(run: RunView, service: ServiceView)
    ensures
        refresh_run::after_expiry_check(run, service, false).1 == service,
        run.stage == RefreshStage::Judging ==> refresh_run::after_expiry_check(
            run,
            service,
            false,
        ).0.stage == RefreshStage::Finished(false),
{
}

/// A saved success clears the strikes and starts the cooldown.
pub proof fn law_saved_success_clears_and_cools(
    run: RunView,
    service: ServiceView,
    saved_at: u64,
    now: u64,
)
    requires
        run.stage == RefreshStage::Saving,
    ensures
        ({
            let s = refresh_run::after_save(run, service, true, saved_at).1;
            &&& s.strikes_of(run.account.id) == 0
            &&& s.cooling(run.account.id, now) <==> now < saved_at + 1800
        }),
{
}

/// The IDE's login is that of the account exactly when the tokens, their beginnings or the hash
/// match; a hash that is letter for letter the same adds nothing to that.
pub proof fn law_current_login_is_matching_login(a: AccountView, l: LocalTokenView)
    ensures
        refresh_run::is_ide_current(a, l) == token_sync::matches_ide(a, l),
{
    if !text::is_unfilled(a.client_id_hash) && l.client_id_hash == a.client_id_hash {
        token_sync::law_same_client_id_hash_matches(a, l);
    }
}

/// An upstream block ends the run and leaves everything as it is, whatever else the message
/// says.
pub proof fn law_upstream_block_is_no_failure(run: RunView, message: Seq<char>, refused: bool)
    requires
        run.stage == RefreshStage::Requesting,
        refresh_run::is_blocked_upstream(message),
    ensures
        refresh_run::after_refresh_failure(run, message, refused) == run.at(
            RefreshStage::Finished(false),
        ),
{
}

// ---------------------------------------------------------------------------------------------
// What each step does
// ---------------------------------------------------------------------------------------------

/// A run begins with the account itself, nothing from the IDE, and a request for fresh tokens.
pub proof fn law_run_begins_with_a_request(a: AccountView)
    ensures
        ({
            let run = refresh_run::new_run(a);
            &&& run.account == a && run.target == a
            &&& run.local is None && run.normalized_expiry is None
            &&& !run.rescued && !run.changed_store()
            &&& run.stage == RefreshStage::Requesting
        }),
{
}

/// Fresh tokens lead to the store, whether they were asked for with the account's own tokens or
/// with rescued ones; nothing else about the run changes.
pub proof fn law_fresh_tokens_lead_to_the_store(run: RunView)
    ensures
        ({
            let r = refresh_run::after_refresh(run);
            &&& r == RunView { stage: r.stage, ..run }
            &&& run.stage == RefreshStage::Requesting ==> r.stage == RefreshStage::Storing
            &&& run.stage == RefreshStage::Retrying ==> r.stage == RefreshStage::Storing
            &&& run.stage != RefreshStage::Requesting && run.stage != RefreshStage::Retrying
                ==> r.stage == run.stage
        }),
{
}

/// A first request that fails is followed up exactly when the tokens were refused and no upstream
/// blocked the request; a failed retry always leads to the judgement. Nothing else changes.
pub proof fn law_refused_tokens_are_followed_up(run: RunView, message: Seq<char>, refused: bool)
    ensures
        ({
            let r = refresh_run::after_refresh_failure(run, message, refused);
            let mark = "UPSTREAM_BLOCKED:"@;
            let blocked = exists|rest: Seq<char>| message == #[trigger] (mark + rest);
            &&& r == RunView { stage: r.stage, ..run }
            &&& run.stage == RefreshStage::Requesting ==> (r.stage == RefreshStage::Checking <==>
                refused && !blocked)
            &&& run.stage == RefreshStage::Requesting ==> (r.stage == RefreshStage::Finished(false)
                <==> !refused || blocked)
            &&& run.stage == RefreshStage::Retrying ==> r.stage == RefreshStage::Judging
            &&& run.stage != RefreshStage::Requesting && run.stage != RefreshStage::Retrying
                ==> r.stage == run.stage
        }),
{
    let mark = "UPSTREAM_BLOCKED:"@;
    if mark.is_prefix_of(message) {
        assert(message == mark + message.skip(mark.len() as int));
    }
    assert forall|rest: Seq<char>| message == #[trigger] (mark + rest) implies mark.is_prefix_of(
        message,
    ) by {
        assert(message.subrange(0, mark.len() as int) == mark);
    }
}

/// Fresh tokens go into the first account with the id that they were asked for, and into no other,
/// if it still has the refresh token that the run began with or the tokens were rescued. If it has
/// another one, or is gone, they are dropped. The look itself changes neither store nor books.
pub proof fn law_fresh_tokens_go_into_their_account(
    run: RunView,
    service: ServiceView,
    accounts: Seq<AccountView>,
)
    requires
        run.stage == RefreshStage::Storing,
        accounts.len() <= usize::MAX,
    ensures
        ({
            let step = refresh_run::after_store(run, service, accounts);
            &&& step.work matches StoreWork::ApplyTokens(k) ==> {
                &&& account::is_first_with_id(accounts, run.target.id, k as int)
                &&& run.rescued || accounts[k as int].refresh_token == run.account.refresh_token
            }
            &&& forall|i: int| #[trigger]
                account::is_first_with_id(accounts, run.target.id, i) && (run.rescued
                    || accounts[i].refresh_token == run.account.refresh_token) ==> step.work
                    == StoreWork::ApplyTokens(i as usize) && i as usize == i && step.run.stage
                    == RefreshStage::Saving
            &&& forall|i: int| #[trigger]
                account::is_first_with_id(accounts, run.target.id, i) && !run.rescued
                    && accounts[i].refresh_token != run.account.refresh_token ==> step.work
                    == StoreWork::Nothing && step.run.stage == RefreshStage::Finished(false)
            &&& account::has_no_id(accounts, run.target.id) ==> step.work == StoreWork::Nothing
                && step.run.stage == RefreshStage::Finished(false)
            &&& step.work != StoreWork::Save
            &&& step.accounts == accounts
            &&& step.service == service
            &&& step.run == RunView { stage: step.run.stage, ..run }
        }),
{
    account::law_first_position_is_unique(accounts, run.target.id);
    let step = refresh_run::after_store(run, service, accounts);
    match account::position_of_id(accounts, run.target.id) {
        Some(i) => assert(account::is_first_with_id(accounts, run.target.id, i)),
        None => {},
    }
}

/// Over any history, the fresh tokens of a run go into the first account with the id of the account
/// that the run is for, and they do go there if that account still has its refresh token.
pub proof fn law_fresh_tokens_reach_their_account(
    a: AccountView,
    service: ServiceView,
    events: Seq<RunEvent>,
    accounts: Seq<AccountView>,
)
    requires
        after_events(refresh_run::new_run(a), service, events).0.stage == RefreshStage::Storing,
        accounts.len() <= usize::MAX,
    ensures
        ({
            let (run, books) = after_events(refresh_run::new_run(a), service, events);
            let step = refresh_run::after_store(run, books, accounts);
            &&& step.work matches StoreWork::ApplyTokens(k) ==> account::is_first_with_id(
                accounts,
                a.id,
                k as int,
            )
            &&& forall|i: int| #[trigger]
                account::is_first_with_id(accounts, a.id, i) && accounts[i].refresh_token
                    == a.refresh_token ==> step.work == StoreWork::ApplyTokens(i as usize)
            &&& step.accounts == accounts
        }),
{
    law_run_keeps_the_books(a, service, events);
    let (run, books) = after_events(refresh_run::new_run(a), service, events);
    law_fresh_tokens_go_into_their_account(run, books, accounts);
}

/// A refusal is dropped, and the strikes with it, exactly when the stored account has another
/// refresh token than the one that was refused; otherwise the IDE is asked. The store stays as it
/// is.
pub proof fn law_refusal_of_replaced_tokens_is_dropped(
    run: RunView,
    service: ServiceView,
    accounts: Seq<AccountView>,
)
    requires
        run.stage == RefreshStage::Checking,
    ensures
        ({
            let step = refresh_run::after_store(run, service, accounts);
            let replaced = exists|i: int| #[trigger]
                account::is_first_with_id(accounts, run.account.id, i) && accounts[i].refresh_token
                    != run.account.refresh_token;
            &&& replaced ==> step.run.stage == RefreshStage::Finished(false) && step.service
                == service.cleared(run.account.id)
            &&& !replaced ==> step.run.stage == RefreshStage::ReadingIde && step.service == service
            &&& step.work == StoreWork::Nothing
            &&& step.accounts == accounts
            &&& step.run == RunView { stage: step.run.stage, ..run }
        }),
{
    account::law_first_position_is_unique(accounts, run.account.id);
    match account::position_of_id(accounts, run.account.id) {
        Some(i) => assert(account::is_first_with_id(accounts, run.account.id, i)),
        None => {},
    }
}

/// A rescue takes the IDE's tokens over into the first account with the run's id and has them
/// tried, exactly when they change that account; no other account is touched, and nothing is
/// recorded. Otherwise the run goes on to the judgement with everything as it was.
pub proof fn law_rescue_takes_over_what_is_new(
    run: RunView,
    service: ServiceView,
    accounts: Seq<AccountView>,
)
    requires
        run.stage == RefreshStage::Rescuing,
    ensures
        ({
            let step = refresh_run::after_store(run, service, accounts);
            &&& step.service == service
            &&& forall|i: int| #[trigger]
                account::is_first_with_id(accounts, run.account.id, i) && run.local is Some ==> {
                    let taken = token_sync::with_ide_tokens(
                        accounts[i],
                        run.local->0,
                        run.normalized_expiry,
                    );
                    if taken == accounts[i] {
                        &&& step.work == StoreWork::Nothing
                        &&& step.accounts == accounts
                        &&& step.run == RunView { stage: RefreshStage::Judging, ..run }
                    } else {
                        &&& step.work == StoreWork::Save
                        &&& step.accounts == accounts.update(i, taken)
                        &&& step.run.stage == RefreshStage::Retrying
                        &&& step.run.rescued
                        &&& step.run.target == taken
                        &&& step.run.account == run.account
                        &&& step.run.local == run.local
                        &&& step.run.normalized_expiry == run.normalized_expiry
                    }
                }
            &&& account::has_no_id(accounts, run.account.id) || run.local is None ==> {
                &&& step.work == StoreWork::Nothing
                &&& step.accounts == accounts
                &&& step.run == RunView { stage: RefreshStage::Judging, ..run }
            }
        }),
{
    account::law_first_position_is_unique(accounts, run.account.id);
}

/// Disabling marks the first account with the run's id as invalid and switches it off, and leaves
/// all else about it and all others alone. An account that got another refresh token, without a
/// rescue, is left alone and its strikes are forgotten; one that is gone is left at that.
pub proof fn law_disabling_marks_the_account_invalid(
    run: RunView,
    service: ServiceView,
    accounts: Seq<AccountView>,
)
    requires
        run.stage == RefreshStage::Disabling,
    ensures
        ({
            let step = refresh_run::after_store(run, service, accounts);
            &&& forall|i: int| #[trigger]
                account::is_first_with_id(accounts, run.account.id, i) ==> if run.rescued
                    || accounts[i].refresh_token == run.account.refresh_token {
                    &&& step.accounts == accounts.update(
                        i,
                        AccountView { status: "invalid"@, enabled: false, ..accounts[i] },
                    )
                    &&& step.work == StoreWork::Save
                    &&& step.run.stage == RefreshStage::Finished(true)
                    &&& step.service == service
                } else {
                    &&& step.accounts == accounts
                    &&& step.work == StoreWork::Nothing
                    &&& step.run.stage == RefreshStage::Finished(false)
                    &&& step.service == service.cleared(run.account.id)
                }
            &&& account::has_no_id(accounts, run.account.id) ==> {
                &&& step.accounts == accounts
                &&& step.work == StoreWork::Nothing
                &&& step.run.stage == RefreshStage::Finished(false)
                &&& step.service == service
            }
            &&& step.run == RunView { stage: step.run.stage, ..run }
        }),
{
    account::law_first_position_is_unique(accounts, run.account.id);
}

/// A look into the store at a stage that waits for something else does nothing.
pub proof fn law_store_is_looked_into_only_when_asked(
    run: RunView,
    service: ServiceView,
    accounts: Seq<AccountView>,
)
    requires
        run.stage != RefreshStage::Storing,
        run.stage != RefreshStage::Checking,
        run.stage != RefreshStage::Rescuing,
        run.stage != RefreshStage::Disabling,
    ensures
        ({
            let step = refresh_run::after_store(run, service, accounts);
            &&& step.run == run
            &&& step.service == service
            &&& step.accounts == accounts
            &&& step.work == StoreWork::Nothing
        }),
{
}

/// Fresh tokens that were saved clear the strikes of the account and start its cooldown; a failed
/// save ends the run without either. Other accounts and reservations are not touched.
pub proof fn law_only_a_save_counts_as_success(
    run: RunView,
    service: ServiceView,
    saved: bool,
    now: u64,
)
    ensures
        ({
            let (r, s) = refresh_run::after_save(run, service, saved, now);
            &&& r == RunView { stage: r.stage, ..run }
            &&& s.in_flight == service.in_flight
            &&& run.stage == RefreshStage::Saving && saved ==> {
                &&& r.stage == RefreshStage::Syncing
                &&& s.strikes == service.strikes.remove(run.account.id)
                &&& s.last_success == service.last_success.insert(run.account.id, now)
            }
            &&& run.stage == RefreshStage::Saving && !saved ==> r.stage == RefreshStage::Finished(
                false,
            ) && s == service
            &&& run.stage != RefreshStage::Saving ==> r.stage == run.stage && s == service
        }),
{
}

/// Once the tokens are saved, the run ends as one that changed the store, whatever became of the
/// IDE's login.
pub proof fn law_synced_run_ends_changed(run: RunView)
    ensures
        ({
            let r = refresh_run::after_ide_sync(run);
            &&& r == RunView { stage: r.stage, ..run }
            &&& run.stage == RefreshStage::Syncing ==> r.stage == RefreshStage::Finished(true)
            &&& run.stage != RefreshStage::Syncing ==> r.stage == run.stage
        }),
{
}

/// Tokens are rescued only from a login of the IDE that matches the account, and from every such
/// login; any other login, or none, leads to the judgement and is forgotten.
pub proof fn law_only_the_own_login_rescues(
    run: RunView,
    local: Option<LocalTokenView>,
    normalized_expiry: Option<Seq<char>>,
)
    ensures
        ({
            let r = refresh_run::after_ide_token(run, local, normalized_expiry);
            let own = local is Some && token_sync::matches_ide(run.account, local->0);
            &&& run.stage == RefreshStage::ReadingIde && own ==> {
                &&& r.stage == RefreshStage::Rescuing
                &&& r.local == local
                &&& r.normalized_expiry == normalized_expiry
            }
            &&& run.stage == RefreshStage::ReadingIde && !own ==> r == RunView {
                stage: RefreshStage::Judging,
                ..run
            }
            &&& run.stage != RefreshStage::ReadingIde ==> r == run
            &&& r.account == run.account && r.target == run.target && r.rescued == run.rescued
        }),
{
    if local is Some {
        law_current_login_is_matching_login(run.account, local->0);
    }
}

/// A refusal counts exactly when the token has expired: then the account has one strike more, and
/// is to be disabled exactly from the third strike on. Nothing else in the books changes.
pub proof fn law_expired_token_gets_a_strike(run: RunView, service: ServiceView, expired: bool)
    requires
        run.stage == RefreshStage::Judging,
        service.strikes_of(run.account.id) < u32::MAX,
    ensures
        ({
            let (r, s) = refresh_run::after_expiry_check(run, service, expired);
            let id = run.account.id;
            &&& r == RunView { stage: r.stage, ..run }
            &&& s.last_success == service.last_success
            &&& s.in_flight == service.in_flight
            &&& expired ==> {
                &&& s.strikes == service.strikes.insert(id, (service.strikes_of(id) + 1) as u32)
                &&& r.stage == RefreshStage::Disabling <==> service.strikes_of(id) >= 2
                &&& r.stage == RefreshStage::Finished(false) <==> service.strikes_of(id) < 2
            }
            &&& !expired ==> s == service && r.stage == RefreshStage::Finished(false)
        }),
{
}

/// The expiry of the token is judged at one stage alone.
pub proof fn law_expiry_is_judged_once(run: RunView, service: ServiceView, expired: bool)
    requires
        run.stage != RefreshStage::Judging,
    ensures
        refresh_run::after_expiry_check(run, service, expired) == (run, service),
{
}

/// Over any history, a run stays with its account, uses its own tokens until others were rescued,
/// and keeps only a login of the IDE that matches the account.
pub proof fn law_run_stays_with_its_account(
    a: AccountView,
    service: ServiceView,
    events: Seq<RunEvent>,
)
    ensures
        ({
            let r = after_events(refresh_run::new_run(a), service, events).0;
            &&& r.account == a
            &&& r.target.id == a.id
            &&& !r.rescued ==> r.target == a
            &&& r.rescued ==> r.local is Some
            &&& r.local matches Some(l) ==> token_sync::matches_ide(a, l)
        }),
    decreases events.len(),
{
    law_run_keeps_the_books(a, service, events);
    if events.len() > 0 {
        law_run_stays_with_its_account(a, service, events.drop_last());
        let (r, s) = after_events(refresh_run::new_run(a), service, events.drop_last());
        match events.last() {
            RunEvent::IdeToken { local, normalized_expiry } => {
                law_only_the_own_login_rescues(r, local, normalized_expiry);
            },
            _ => {},
        }
    }
}

} // verus!
