//! The refresh of one account, from the first request to the stored outcome.
//!
//! A [`RefreshRun`] is at one stage at a time. The stage says what has to happen outside (a
//! request, a look into the account store, a look at the IDE's login); the outcome is handed to
//! the method for it, which takes the run to its next stage. A method that does not belong to
//! the stage leaves everything as it is.
use crate::account;
use crate::account::{Account, AccountView, KiroLocalToken, LocalTokenView};
use crate::refresh_service::{ServiceView, TokenRefreshService};
use crate::text;
use crate::token_sync;
use vstd::prelude::*;

verus! {

// ---------------------------------------------------------------------------------------------
// Runs
// ---------------------------------------------------------------------------------------------

/// What a run waits for.
#[derive(Clone, Copy, Debug, PartialEq, Eq, Structural)]
pub enum RefreshStage {
    /// The tokens of `target` are to be refreshed: [`RefreshRun::on_refreshed`] or
    /// [`RefreshRun::on_refresh_failed`].
    Requesting,
    /// Fresh tokens are there; the store is to be reloaded: [`RefreshRun::on_store`].
    Storing,
    /// The fresh tokens are to be put into the store and saved: [`RefreshRun::on_saved`].
    Saving,
    /// The IDE's login is to be brought up to date: [`RefreshRun::on_ide_synced`].
    Syncing,
    /// The tokens were refused; the store is to be reloaded: [`RefreshRun::on_store`].
    Checking,
    /// The IDE's login is to be read: [`RefreshRun::on_ide_token`].
    ReadingIde,
    /// The IDE may have better tokens; the store is to be reloaded: [`RefreshRun::on_store`].
    Rescuing,
    /// The tokens rescued from the IDE are to be refreshed, like at `Requesting`.
    Retrying,
    /// Whether the account's token has expired is to be found out:
    /// [`RefreshRun::on_expiry_checked`].
    Judging,
    /// The account is to be disabled; the store is to be reloaded: [`RefreshRun::on_store`].
    Disabling,
    /// The run is over; the flag says whether its last step changed the store.
    /// [`RefreshRun::changed_store`] says whether the run as a whole did.
    Finished(bool),
}

/// What is to be done with the reloaded store before it is given free.
#[derive(Clone, Copy, Debug, PartialEq, Eq, Structural)]
pub enum StoreWork {
    Nothing,
    /// Put the fresh tokens into the account at this position and save.
    ApplyTokens(usize),
    /// Save the store as it was left.
    Save,
}

/// The refresh of one account.
pub struct RefreshRun {
    /// The account as it was when the run began.
    pub account: Account,
    /// The account whose tokens are used: `account`, or what was rescued from the IDE.
    pub target: Account,
    /// The IDE's login, once it was found to be that of the account.
    pub local: Option<KiroLocalToken>,
    /// The expiry of `local` in the format of the account store.
    pub normalized_expiry: Option<String>,
    /// Tokens were taken over from the IDE.
    pub rescued: bool,
    pub stage: RefreshStage,
}

/// The contents of a [`RefreshRun`].
pub struct RunView {
    pub account: AccountView,
    pub target: AccountView,
    pub local: Option<LocalTokenView>,
    pub normalized_expiry: Option<Seq<char>>,
    pub rescued: bool,
    pub stage: RefreshStage,
}

/// The contents of the IDE's login, if there is one.
pub open spec fn local_view(local: Option<KiroLocalToken>) -> Option<LocalTokenView> {
    match local {
        Some(l) => Some(l@),
        None => None,
    }
}

impl View for RefreshRun {
    type V = RunView;

    open spec fn view(&self) -> RunView {
        RunView {
            account: self.account@,
            target: self.target@,
            local: local_view(self.local),
            normalized_expiry: text::text_of(self.normalized_expiry),
            rescued: self.rescued,
            stage: self.stage,
        }
    }
}

/// A run for this account that has just begun.
pub open spec fn new_run(a: AccountView) -> RunView {
    RunView {
        account: a,
        target: a,
        local: None,
        normalized_expiry: None,
        rescued: false,
        stage: RefreshStage::Requesting,
    }
}

impl RunView {
    /// The run at another stage.
    pub open spec fn at(self, stage: RefreshStage) -> RunView {
        RunView { stage, ..self }
    }

    /// The stored account has another refresh token than the one that this run was begun with.
    pub open spec fn is_stale(self, stored: AccountView) -> bool {
        stored.refresh_token != self.account.refresh_token
    }

    /// The run has changed the store: tokens were rescued from the IDE, or its last step did.
    pub open spec fn changed_store(self) -> bool {
        self.rescued || self.stage == RefreshStage::Finished(true)
    }
}

// ---------------------------------------------------------------------------------------------
// Replies to a refresh request
// ---------------------------------------------------------------------------------------------

/// A request that an upstream blocked is marked so.
pub open spec fn is_blocked_upstream(message: Seq<char>) -> bool {
    "UPSTREAM_BLOCKED:"@.is_prefix_of(message)
}

/// Fresh tokens were issued.
pub open spec fn after_refresh(run: RunView) -> RunView {
    if run.stage == RefreshStage::Requesting || run.stage == RefreshStage::Retrying {
        run.at(RefreshStage::Storing)
    } else {
        run
    }
}

/// The request failed. Only refused tokens are followed up, and only on the first request.
pub open spec fn after_refresh_failure(run: RunView, message: Seq<char>, refused: bool) -> RunView {
    if run.stage == RefreshStage::Requesting {
        if refused && !is_blocked_upstream(message) {
            run.at(RefreshStage::Checking)
        } else {
            run.at(RefreshStage::Finished(false))
        }
    } else if run.stage == RefreshStage::Retrying {
        run.at(RefreshStage::Judging)
    } else {
        run
    }
}

// ---------------------------------------------------------------------------------------------
// Looks into the store
// ---------------------------------------------------------------------------------------------

/// What a look into the store leads to.
pub struct StoreStep {
    pub run: RunView,
    pub service: ServiceView,
    pub accounts: Seq<AccountView>,
    pub work: StoreWork,
}

/// Fresh tokens go into the stored account, unless it is gone or, but for rescued tokens, has
/// got others meanwhile.
pub open spec fn store_tokens(
    run: RunView,
    service: ServiceView,
    accounts: Seq<AccountView>,
) -> StoreStep {
    match account::position_of_id(accounts, run.target.id) {
        Some(i) if run.rescued || !run.is_stale(accounts[i]) => StoreStep {
            run: run.at(RefreshStage::Saving),
            service,
            accounts,
            work: StoreWork::ApplyTokens(i as usize),
        },
        _ => StoreStep {
            run: run.at(RefreshStage::Finished(false)),
            service,
            accounts,
            work: StoreWork::Nothing,
        },
    }
}

/// Refused tokens that were replaced meanwhile say nothing about the account.
pub open spec fn check_refusal(
    run: RunView,
    service: ServiceView,
    accounts: Seq<AccountView>,
) -> StoreStep {
    match account::position_of_id(accounts, run.account.id) {
        Some(i) if run.is_stale(accounts[i]) => StoreStep {
            run: run.at(RefreshStage::Finished(false)),
            service: service.cleared(run.account.id),
            accounts,
            work: StoreWork::Nothing,
        },
        _ => StoreStep {
            run: run.at(RefreshStage::ReadingIde),
            service,
            accounts,
            work: StoreWork::Nothing,
        },
    }
}

/// The account takes over the IDE's tokens; if that changes it, they are tried.
pub open spec fn rescue_tokens(
    run: RunView,
    service: ServiceView,
    accounts: Seq<AccountView>,
) -> StoreStep {
    match (account::position_of_id(accounts, run.account.id), run.local) {
        (Some(i), Some(l)) => {
            let rescued = token_sync::with_ide_tokens(accounts[i], l, run.normalized_expiry);
            if rescued != accounts[i] {
                StoreStep {
                    run: RunView {
                        target: rescued,
                        rescued: true,
                        stage: RefreshStage::Retrying,
                        ..run
                    },
                    service,
                    accounts: accounts.update(i, rescued),
                    work: StoreWork::Save,
                }
            } else {
                StoreStep {
                    run: run.at(RefreshStage::Judging),
                    service,
                    accounts,
                    work: StoreWork::Nothing,
                }
            }
        },
        _ => StoreStep {
            run: run.at(RefreshStage::Judging),
            service,
            accounts,
            work: StoreWork::Nothing,
        },
    }
}

/// A disabled account.
pub open spec fn disabled(a: AccountView) -> AccountView {
    AccountView { status: "invalid"@, enabled: false, ..a }
}

/// The account is disabled, unless it is gone or has got other tokens from elsewhere. Once tokens
/// were rescued from the IDE, other tokens no longer spare it.
pub open spec fn disable(
    run: RunView,
    service: ServiceView,
    accounts: Seq<AccountView>,
) -> StoreStep {
    match account::position_of_id(accounts, run.account.id) {
        Some(i) => if !run.rescued && run.is_stale(accounts[i]) {
            StoreStep {
                run: run.at(RefreshStage::Finished(false)),
                service: service.cleared(run.account.id),
                accounts,
                work: StoreWork::Nothing,
            }
        } else {
            StoreStep {
                run: run.at(RefreshStage::Finished(true)),
                service,
                accounts: accounts.update(i, disabled(accounts[i])),
                work: StoreWork::Save,
            }
        },
        None => StoreStep {
            run: run.at(RefreshStage::Finished(false)),
            service,
            accounts,
            work: StoreWork::Nothing,
        },
    }
}

/// What a look into the store leads to, at any stage.
pub open spec fn after_store(
    run: RunView,
    service: ServiceView,
    accounts: Seq<AccountView>,
) -> StoreStep {
    match run.stage {
        RefreshStage::Storing => store_tokens(run, service, accounts),
        RefreshStage::Checking => check_refusal(run, service, accounts),
        RefreshStage::Rescuing => rescue_tokens(run, service, accounts),
        RefreshStage::Disabling => disable(run, service, accounts),
        _ => StoreStep { run, service, accounts, work: StoreWork::Nothing },
    }
}

// ---------------------------------------------------------------------------------------------
// After the store was saved, the IDE was read or written, the expiry was checked
// ---------------------------------------------------------------------------------------------

/// The fresh tokens were saved, or could not be.
pub open spec fn after_save(run: RunView, service: ServiceView, saved: bool, now: u64) -> (
    RunView,
    ServiceView,
) {
    if run.stage != RefreshStage::Saving {
        (run, service)
    } else if saved {
        (
            run.at(RefreshStage::Syncing),
            service.cleared(run.account.id).succeeded(run.account.id, now),
        )
    } else {
        (run.at(RefreshStage::Finished(false)), service)
    }
}

/// The IDE's login was brought up to date, or could not be: the tokens are stored either way.
pub open spec fn after_ide_sync(run: RunView) -> RunView {
    if run.stage == RefreshStage::Syncing {
        run.at(RefreshStage::Finished(true))
    } else {
        run
    }
}

/// The IDE is logged in with this account.
pub open spec fn is_ide_current(a: AccountView, l: LocalTokenView) -> bool {
    token_sync::matches_ide(a, l) || (!text::is_unfilled(a.client_id_hash) && l.client_id_hash
        == a.client_id_hash)
}

/// The IDE's login was read.
pub open spec fn after_ide_token(
    run: RunView,
    local: Option<LocalTokenView>,
    normalized_expiry: Option<Seq<char>>,
) -> RunView {
    if run.stage != RefreshStage::ReadingIde {
        run
    } else {
        match local {
            Some(l) if is_ide_current(run.account, l) => RunView {
                local,
                normalized_expiry,
                stage: RefreshStage::Rescuing,
                ..run
            },
            _ => run.at(RefreshStage::Judging),
        }
    }
}

/// Whether the token has expired was found out. Only a failure with an expired token counts.
pub open spec fn after_expiry_check(run: RunView, service: ServiceView, expired: bool) -> (
    RunView,
    ServiceView,
) {
    if run.stage != RefreshStage::Judging {
        (run, service)
    } else if expired {
        let struck = service.struck(run.account.id);
        if token_sync::strikes_disable(struck.strikes_of(run.account.id)) {
            (run.at(RefreshStage::Disabling), struck)
        } else {
            (run.at(RefreshStage::Finished(false)), struck)
        }
    } else {
        (run.at(RefreshStage::Finished(false)), service)
    }
}

// ---------------------------------------------------------------------------------------------
// Execution
// ---------------------------------------------------------------------------------------------

proof fn lemma_accounts_set(accounts: Seq<Account>, i: int, a: Account)
    requires
        0 <= i < accounts.len(),
    ensures
        account::accounts_view(accounts.update(i, a)) == account::accounts_view(accounts).update(
            i,
            a@,
        ),
{
    assert(account::accounts_view(accounts.update(i, a)) =~= account::accounts_view(
        accounts,
    ).update(i, a@));
}

impl RefreshRun {
    /// Begins the refresh of an account.
    pub fn new(account: &Account) -> (r: RefreshRun)
        ensures
            r@ == new_run(account@),
    {
        RefreshRun {
            account: account.clone(),
            target: account.clone(),
            local: None,
            normalized_expiry: None,
            rescued: false,
            stage: RefreshStage::Requesting,
        }
    }

    /// Fresh tokens were issued.
    pub fn on_refreshed(&mut self)
        ensures
            final(self)@ == after_refresh(old(self)@),
    {
        if self.stage == RefreshStage::Requesting || self.stage == RefreshStage::Retrying {
            self.stage = RefreshStage::Storing;
        }
    }

    /// The request failed with this message; `refused` says whether it means that the tokens
    /// were refused.
    pub fn on_refresh_failed(&mut self, message: &str, refused: bool)
        ensures
            final(self)@ == after_refresh_failure(old(self)@, message@, refused),
    {
        if self.stage == RefreshStage::Requesting {
            if text::starts_with(message, "UPSTREAM_BLOCKED:") {
                self.stage = RefreshStage::Finished(false);
            } else if refused {
                self.stage = RefreshStage::Checking;
            } else {
                self.stage = RefreshStage::Finished(false);
            }
        } else if self.stage == RefreshStage::Retrying {
            self.stage = RefreshStage::Judging;
        }
    }

    /// The store was reloaded. It has to stay locked until what is returned was done.
    pub fn on_store(
        &mut self,
        service: &mut TokenRefreshService,
        accounts: &mut Vec<Account>,
    ) -> (work: StoreWork)
        ensures
            ({
                let step = after_store(
                    old(self)@,
                    old(service)@,
                    account::accounts_view(old(accounts)@),
                );
                &&& final(self)@ == step.run
                &&& final(service)@ == step.service
                &&& account::accounts_view(final(accounts)@) == step.accounts
                &&& work == step.work
            }),
            work matches StoreWork::ApplyTokens(i) ==> i < final(accounts).len(),
    {
        match self.stage {
            RefreshStage::Storing => self.store_tokens(accounts),
            RefreshStage::Checking => self.check_refusal(service, accounts),
            RefreshStage::Rescuing => self.rescue_tokens(accounts),
            RefreshStage::Disabling => self.disable(service, accounts),
            _ => StoreWork::Nothing,
        }
    }

    fn store_tokens(&mut self, accounts: &Vec<Account>) -> (work: StoreWork)
        ensures
            forall|service: ServiceView|
                {
                    let step = #[trigger] store_tokens(
                        old(self)@,
                        service,
                        account::accounts_view(accounts@),
                    );
                    final(self)@ == step.run && work == step.work
                },
            work matches StoreWork::ApplyTokens(i) ==> i < accounts.len(),
    {
        match account::find_by_id(accounts, self.target.id.as_str()) {
            Some(i) => {
                if !self.rescued && !text::same_field(
                    &accounts[i].refresh_token,
                    &self.account.refresh_token,
                ) {
                    self.stage = RefreshStage::Finished(false);
                    StoreWork::Nothing
                } else {
                    self.stage = RefreshStage::Saving;
                    StoreWork::ApplyTokens(i)
                }
            },
            None => {
                self.stage = RefreshStage::Finished(false);
                StoreWork::Nothing
            },
        }
    }

    fn check_refusal(&mut self, service: &mut TokenRefreshService, accounts: &Vec<Account>) -> (work:
        StoreWork)
        ensures
            ({
                let step = check_refusal(
                    old(self)@,
                    old(service)@,
                    account::accounts_view(accounts@),
                );
                final(self)@ == step.run && final(service)@ == step.service && work == step.work
            }),
            work == StoreWork::Nothing,
    {
        match account::find_by_id(accounts, self.account.id.as_str()) {
            Some(i) => {
                if !text::same_field(&accounts[i].refresh_token, &self.account.refresh_token) {
                    service.clear_strikes(self.account.id.as_str());
                    self.stage = RefreshStage::Finished(false);
                    return StoreWork::Nothing;
                }
            },
            None => {},
        }
        self.stage = RefreshStage::ReadingIde;
        StoreWork::Nothing
    }

    fn rescue_tokens(&mut self, accounts: &mut Vec<Account>) -> (work: StoreWork)
        ensures
            forall|service: ServiceView|
                {
                    let step = #[trigger] rescue_tokens(
                        old(self)@,
                        service,
                        account::accounts_view(old(accounts)@),
                    );
                    &&& final(self)@ == step.run
                    &&& account::accounts_view(final(accounts)@) == step.accounts
                    &&& work == step.work
                },
            !(work is ApplyTokens),
    {
        match account::find_by_id(accounts, self.account.id.as_str()) {
            Some(i) => match &self.local {
                Some(local) => {
                    let mut stored = accounts[i].clone();
                    if token_sync::apply_ide_tokens_to_account(
                        &mut stored,
                        local,
                        &self.normalized_expiry,
                    ) {
                        self.target = stored.clone();
                        proof {
                            lemma_accounts_set(accounts@, i as int, stored);
                        }
                        accounts.set(i, stored);
                        self.rescued = true;
                        self.stage = RefreshStage::Retrying;
                        return StoreWork::Save;
                    }
                },
                None => {},
            },
            None => {},
        }
        self.stage = RefreshStage::Judging;
        StoreWork::Nothing
    }

    fn disable(&mut self, service: &mut TokenRefreshService, accounts: &mut Vec<Account>) -> (work:
        StoreWork)
        ensures
            ({
                let step = disable(
                    old(self)@,
                    old(service)@,
                    account::accounts_view(old(accounts)@),
                );
                &&& final(self)@ == step.run
                &&& final(service)@ == step.service
                &&& account::accounts_view(final(accounts)@) == step.accounts
                &&& work == step.work
            }),
            !(work is ApplyTokens),
    {
        match account::find_by_id(accounts, self.account.id.as_str()) {
            Some(i) => {
                if !self.rescued && !text::same_field(
                    &accounts[i].refresh_token,
                    &self.account.refresh_token,
                ) {
                    service.clear_strikes(self.account.id.as_str());
                    self.stage = RefreshStage::Finished(false);
                    return StoreWork::Nothing;
                }
                let mut stored = accounts[i].clone();
                stored.status = "invalid".to_owned();
                stored.enabled = false;
                proof {
                    lemma_accounts_set(accounts@, i as int, stored);
                }
                accounts.set(i, stored);
                self.stage = RefreshStage::Finished(true);
                StoreWork::Save
            },
            None => {
                self.stage = RefreshStage::Finished(false);
                StoreWork::Nothing
            },
        }
    }

    /// The fresh tokens were put into the store, and saved or not. `now` is Unix time.
    pub fn on_saved(&mut self, service: &mut TokenRefreshService, saved: bool, now: u64)
        ensures
            (final(self)@, final(service)@) == after_save(old(self)@, old(service)@, saved, now),
    {
        if self.stage == RefreshStage::Saving {
            if saved {
                service.clear_strikes(self.account.id.as_str());
                service.mark_success_at(self.account.id.as_str(), now);
                self.stage = RefreshStage::Syncing;
            } else {
                self.stage = RefreshStage::Finished(false);
            }
        }
    }

    /// The IDE's login was brought up to date, was another one, or could not be written.
    pub fn on_ide_synced(&mut self)
        ensures
            final(self)@ == after_ide_sync(old(self)@),
    {
        if self.stage == RefreshStage::Syncing {
            self.stage = RefreshStage::Finished(true);
        }
    }

    /// The IDE's login was read, together with its expiry in the format of the account store.
    pub fn on_ide_token(
        &mut self,
        local: Option<KiroLocalToken>,
        normalized_expiry: Option<String>,
    )
        ensures
            final(self)@ == after_ide_token(
                old(self)@,
                local_view(local),
                text::text_of(normalized_expiry),
            ),
    {
        if self.stage == RefreshStage::ReadingIde {
            match local {
                Some(l) => {
                    let current = token_sync::account_matches_ide_token(&self.account, &l) || (
                    text::filled_text(&self.account.client_id_hash).is_some() && text::same_field(
                        &l.client_id_hash,
                        &self.account.client_id_hash,
                    ));
                    if current {
                        self.local = Some(l);
                        self.normalized_expiry = normalized_expiry;
                        self.stage = RefreshStage::Rescuing;
                    } else {
                        self.stage = RefreshStage::Judging;
                    }
                },
                None => {
                    self.stage = RefreshStage::Judging;
                },
            }
        }
    }

    /// Whether the account's token has expired was found out.
    pub fn on_expiry_checked(&mut self, service: &mut TokenRefreshService, expired: bool)
        ensures
            (final(self)@, final(service)@) == after_expiry_check(
                old(self)@,
                old(service)@,
                expired,
            ),
    {
        if self.stage == RefreshStage::Judging {
            if expired {
                let (_, disable) = service.bump_strikes(self.account.id.as_str());
                if disable {
                    self.stage = RefreshStage::Disabling;
                } else {
                    self.stage = RefreshStage::Finished(false);
                }
            } else {
                self.stage = RefreshStage::Finished(false);
            }
        }
    }

    /// Whether the run has changed the store.
    pub fn changed_store(&self) -> (r: bool)
        ensures
            r == self@.changed_store(),
    {
        self.rescued || self.stage == RefreshStage::Finished(true)
    }
}

} // verus!
