//! Switching the command line to a stored account.
//!
//! A [`SwitchRun`] is at one stage at a time, like the runs of [`crate::refresh_run`]: the stage
//! says what has to happen outside, and the method for its outcome takes the run on. A method
//! that does not belong to the stage leaves everything as it is.
use crate::account;
use crate::account::{Account, AccountView};
use crate::expiry;
use crate::expiry::Instant;
use crate::text;
use vstd::prelude::*;

verus! {

// ---------------------------------------------------------------------------------------------
// Runs
// ---------------------------------------------------------------------------------------------

/// Why the command line cannot be switched to an account.
#[derive(Clone, Copy, Debug, PartialEq, Eq, Structural)]
pub enum SwitchFailure {
    MissingProvider,
    MissingAccessToken,
    Banned,
}

impl SwitchFailure {
    /// The message for the user.
    pub fn message(self) -> (r: String)
        ensures
            r@ == (match self {
                SwitchFailure::MissingProvider => "账号缺少 provider 字段"@,
                SwitchFailure::MissingAccessToken => "账号缺少 access_token"@,
                SwitchFailure::Banned => "账号已被封禁，无法切换到 CLI"@,
            }),
    {
        match self {
            SwitchFailure::MissingProvider => "账号缺少 provider 字段".to_owned(),
            SwitchFailure::MissingAccessToken => "账号缺少 access_token".to_owned(),
            SwitchFailure::Banned => "账号已被封禁，无法切换到 CLI".to_owned(),
        }
    }
}

/// What a switch waits for.
#[derive(Clone, Copy, Debug, PartialEq, Eq, Structural)]
pub enum SwitchStage {
    /// Fresh tokens: [`SwitchRun::on_refreshed`] or [`SwitchRun::on_refresh_failed`].
    Refreshing,
    /// A new machine id and the locked store: [`SwitchRun::on_machine_id`].
    NamingMachine,
    /// The usage report and the locked store: [`SwitchRun::on_usage`], or
    /// [`SwitchRun::on_usage_failed`].
    CheckingUsage,
    /// Nothing: `account` can be written into the command line's database.
    Ready,
    /// Nothing: the command line is not switched.
    Failed(SwitchFailure),
}

/// The switch to one account.
pub struct SwitchRun {
    /// The account with what the run has found out.
    pub account: Account,
    pub stage: SwitchStage,
}

/// The contents of a [`SwitchRun`].
pub struct SwitchView {
    pub account: AccountView,
    pub stage: SwitchStage,
}

impl View for SwitchRun {
    type V = SwitchView;

    open spec fn view(&self) -> SwitchView {
        SwitchView { account: self.account@, stage: self.stage }
    }
}

/// The message for an id that no account has.
pub open spec fn not_found(id: Seq<char>) -> Seq<char> {
    "账号不存在: "@ + id
}

/// The run once the tokens are settled and the machine has a name.
pub open spec fn requirements_checked(a: AccountView) -> SwitchView {
    SwitchView {
        account: a,
        stage: if a.provider is None {
            SwitchStage::Failed(SwitchFailure::MissingProvider)
        } else if a.access_token is None {
            SwitchStage::Failed(SwitchFailure::MissingAccessToken)
        } else {
            SwitchStage::CheckingUsage
        },
    }
}

/// The run once the tokens are settled.
pub open spec fn tokens_settled(a: AccountView) -> SwitchView {
    if text::is_unfilled(a.machine_id) {
        SwitchView { account: a, stage: SwitchStage::NamingMachine }
    } else {
        requirements_checked(a)
    }
}

/// A switch that has just begun. Only an account with a refresh token is refreshed first.
pub open spec fn new_switch(a: AccountView) -> SwitchView {
    if a.refresh_token is Some {
        SwitchView { account: a, stage: SwitchStage::Refreshing }
    } else {
        tokens_settled(a)
    }
}

/// Fresh tokens were issued. The refresh token is the one that came with them, or none.
pub open spec fn after_refresh(
    run: SwitchView,
    access_token: Seq<char>,
    refresh_token: Option<Seq<char>>,
    expires_at: Seq<char>,
) -> SwitchView {
    if run.stage != SwitchStage::Refreshing {
        run
    } else {
        tokens_settled(
            AccountView {
                access_token: Some(access_token),
                refresh_token,
                expires_at: Some(expires_at),
                ..run.account
            },
        )
    }
}

/// The request for fresh tokens failed: the ones at hand are used.
pub open spec fn after_refresh_failure(run: SwitchView) -> SwitchView {
    if run.stage != SwitchStage::Refreshing {
        run
    } else {
        tokens_settled(run.account)
    }
}

/// The stored account is waiting for a machine id.
pub open spec fn stored_without_machine_id(run: SwitchView, accounts: Seq<AccountView>) -> bool {
    match account::position_of_id(accounts, run.account.id) {
        Some(i) => text::is_unfilled(accounts[i].machine_id),
        None => false,
    }
}

/// Run and store after the machine got a name. A stored name is left alone.
pub open spec fn after_machine_id(
    run: SwitchView,
    accounts: Seq<AccountView>,
    machine_id: Seq<char>,
) -> (SwitchView, Seq<AccountView>) {
    if run.stage != SwitchStage::NamingMachine {
        (run, accounts)
    } else {
        (
            requirements_checked(AccountView { machine_id: Some(machine_id), ..run.account }),
            match account::position_of_id(accounts, run.account.id) {
                Some(i) if text::is_unfilled(accounts[i].machine_id) => accounts.update(
                    i,
                    AccountView { machine_id: Some(machine_id), ..accounts[i] },
                ),
                _ => accounts,
            },
        )
    }
}

/// Run and store after the usage report arrived. A ban stops the switch to a stored account.
pub open spec fn after_usage(
    run: SwitchView,
    accounts: Seq<AccountView>,
    usage_data: Seq<char>,
    is_banned: bool,
) -> (SwitchView, Seq<AccountView>) {
    if run.stage != SwitchStage::CheckingUsage {
        (run, accounts)
    } else {
        match account::position_of_id(accounts, run.account.id) {
            Some(i) => (
                SwitchView {
                    stage: if is_banned {
                        SwitchStage::Failed(SwitchFailure::Banned)
                    } else {
                        SwitchStage::Ready
                    },
                    ..run
                },
                accounts.update(i, AccountView { usage_data: Some(usage_data), ..accounts[i] }),
            ),
            None => (SwitchView { stage: SwitchStage::Ready, ..run }, accounts),
        }
    }
}

/// There is no usage report; that does not stop the switch.
pub open spec fn after_usage_failure(run: SwitchView) -> SwitchView {
    if run.stage != SwitchStage::CheckingUsage {
        run
    } else {
        SwitchView { stage: SwitchStage::Ready, ..run }
    }
}

// ---------------------------------------------------------------------------------------------
// Execution
// ---------------------------------------------------------------------------------------------

impl SwitchRun {
    /// Begins the switch to the account with this id; without one, the message for the user.
    pub fn new(accounts: &Vec<Account>, account_id: &str) -> (r: Result<SwitchRun, String>)
        ensures
            match account::position_of_id(account::accounts_view(accounts@), account_id@) {
                Some(i) => r matches Ok(run) && run@ == new_switch(
                    account::accounts_view(accounts@)[i],
                ),
                None => r matches Err(message) && message@ == not_found(account_id@),
            },
    {
        match account::find_by_id(accounts, account_id) {
            Some(i) => {
                let mut run = SwitchRun {
                    account: accounts[i].clone(),
                    stage: SwitchStage::Refreshing,
                };
                if run.account.refresh_token.is_none() {
                    run.settle_tokens();
                }
                Ok(run)
            },
            None => Err(text::joined("账号不存在: ", account_id)),
        }
    }

    fn settle_tokens(&mut self)
        ensures
            final(self)@ == tokens_settled(old(self)@.account),
    {
        if text::filled_text(&self.account.machine_id).is_none() {
            self.stage = SwitchStage::NamingMachine;
        } else {
            self.check_requirements();
        }
    }

    fn check_requirements(&mut self)
        ensures
            final(self)@ == requirements_checked(old(self)@.account),
    {
        if self.account.provider.is_none() {
            self.stage = SwitchStage::Failed(SwitchFailure::MissingProvider);
        } else if self.account.access_token.is_none() {
            self.stage = SwitchStage::Failed(SwitchFailure::MissingAccessToken);
        } else {
            self.stage = SwitchStage::CheckingUsage;
        }
    }

    /// Tokens that live for `expires_in` seconds were issued at `now`.
    pub fn on_refreshed_at(
        &mut self,
        access_token: String,
        refresh_token: Option<String>,
        expires_in: i64,
        now: Instant,
    )
        requires
            expiry::lifetime_fits(now, expires_in as int),
        ensures
            final(self)@ == after_refresh(
                old(self)@,
                access_token@,
                text::text_of(refresh_token),
                expiry::rfc3339((now.secs + expires_in) as i64, now.nanos),
            ),
    {
        if self.stage == SwitchStage::Refreshing {
            self.account.access_token = Some(access_token);
            self.account.refresh_token = refresh_token;
            self.account.expires_at = Some(expiry::expiry_after(now, expires_in));
            self.settle_tokens();
        }
    }

    /// Tokens that live for `expires_in` seconds were issued just now. Tokens that would expire
    /// at a time that cannot be represented are not taken: then nothing changes, and `false` is
    /// returned.
    pub fn on_refreshed(
        &mut self,
        access_token: String,
        refresh_token: Option<String>,
        expires_in: i64,
    ) -> (taken: bool)
        ensures
            exists|now: Instant|
                {
                    &&& #[trigger] expiry::is_clock_answer(now)
                    &&& expiry::is_clock_reading(now)
                    &&& taken == expiry::lifetime_fits(now, expires_in as int)
                    &&& final(self)@ == if taken {
                        after_refresh(
                            old(self)@,
                            access_token@,
                            text::text_of(refresh_token),
                            expiry::rfc3339((now.secs + expires_in) as i64, now.nanos),
                        )
                    } else {
                        old(self)@
                    }
                },
    {
        let now = expiry::read_clock();
        if expiry::check_lifetime(now, expires_in) {
            self.on_refreshed_at(access_token, refresh_token, expires_in, now);
            true
        } else {
            false
        }
    }

    /// No fresh tokens were issued.
    pub fn on_refresh_failed(&mut self)
        ensures
            final(self)@ == after_refresh_failure(old(self)@),
    {
        if self.stage == SwitchStage::Refreshing {
            self.settle_tokens();
        }
    }

    /// The machine got a name. Says whether the store is to be saved.
    pub fn on_machine_id(&mut self, accounts: &mut Vec<Account>, machine_id: String) -> (changed:
        bool)
        ensures
            ({
                let before = account::accounts_view(old(accounts)@);
                let (run, stored) = after_machine_id(old(self)@, before, machine_id@);
                &&& final(self)@ == run
                &&& account::accounts_view(final(accounts)@) == stored
                &&& changed == (old(self)@.stage == SwitchStage::NamingMachine
                    && stored_without_machine_id(old(self)@, before))
            }),
    {
        if self.stage != SwitchStage::NamingMachine {
            return false;
        }
        let mut changed = false;
        let ghost before = account::accounts_view(accounts@);
        match account::find_by_id(accounts, self.account.id.as_str()) {
            Some(i) => {
                if text::filled_text(&accounts[i].machine_id).is_none() {
                    let mut stored = accounts[i].clone();
                    stored.machine_id = Some(machine_id.clone());
                    accounts.set(i, stored);
                    changed = true;
                    proof {
                        let named = AccountView {
                            machine_id: Some(machine_id@),
                            ..before[i as int]
                        };
                        assert(account::accounts_view(accounts@) =~= before.update(
                            i as int,
                            named,
                        ));
                    }
                }
            },
            None => {},
        }
        self.account.machine_id = Some(machine_id);
        self.check_requirements();
        changed
    }

    /// The usage report arrived. Returns where in the store the account is whose status is to be
    /// brought up to date and saved.
    pub fn on_usage(
        &mut self,
        accounts: &mut Vec<Account>,
        usage_data: String,
        is_banned: bool,
    ) -> (r: Option<usize>)
        ensures
            ({
                let before = account::accounts_view(old(accounts)@);
                let (run, stored) = after_usage(old(self)@, before, usage_data@, is_banned);
                &&& final(self)@ == run
                &&& account::accounts_view(final(accounts)@) == stored
                &&& account::position_view(r) == if old(self)@.stage
                    == SwitchStage::CheckingUsage {
                    account::position_of_id(before, old(self)@.account.id)
                } else {
                    None
                }
            }),
            r matches Some(i) ==> i < final(accounts).len(),
    {
        if self.stage != SwitchStage::CheckingUsage {
            return None;
        }
        let ghost before = account::accounts_view(accounts@);
        match account::find_by_id(accounts, self.account.id.as_str()) {
            Some(i) => {
                let mut stored = accounts[i].clone();
                stored.usage_data = Some(usage_data);
                accounts.set(i, stored);
                proof {
                    assert(account::accounts_view(accounts@) =~= before.update(
                        i as int,
                        AccountView { usage_data: Some(usage_data@), ..before[i as int] },
                    ));
                }
                self.stage = if is_banned {
                    SwitchStage::Failed(SwitchFailure::Banned)
                } else {
                    SwitchStage::Ready
                };
                Some(i)
            },
            None => {
                self.stage = SwitchStage::Ready;
                None
            },
        }
    }

    /// There is no usage report.
    pub fn on_usage_failed(&mut self)
        ensures
            final(self)@ == after_usage_failure(old(self)@),
    {
        if self.stage == SwitchStage::CheckingUsage {
            self.stage = SwitchStage::Ready;
        }
    }
}

} // verus!
