//! Importing the command line's login into the account store.
//!
//! An [`ImportRun`] is at one stage at a time. The stage says what has to happen outside; the
//! outcome is handed to the method for it, which takes the run to its next stage. A method that
//! does not belong to the stage leaves everything as it is. From `LookingUp` on the account
//! store has to stay locked.
use crate::account;
use crate::account::{Account, AccountView, CliAccountView, KiroCliAccount};
use crate::text;
use crate::user_info;
use crate::user_info::{UserInfo, UserInfoView};
use vstd::prelude::*;

verus! {

// ---------------------------------------------------------------------------------------------
// The login
// ---------------------------------------------------------------------------------------------

/// Why there is no login to import.
#[derive(Clone, Copy, Debug, PartialEq, Eq, Structural)]
pub enum ImportError {
    NoLogin,
    ManyLogins,
}

impl ImportError {
    /// The message for the user.
    pub fn message(self) -> (r: String)
        ensures
            r@ == (match self {
                ImportError::NoLogin => "数据库中没有账号数据"@,
                ImportError::ManyLogins => "数据库中有多个账号，请联系开发者"@,
            }),
    {
        match self {
            ImportError::NoLogin => "数据库中没有账号数据".to_owned(),
            ImportError::ManyLogins => "数据库中有多个账号，请联系开发者".to_owned(),
        }
    }
}

/// The login of the database, which has to be the only one.
pub fn select_cli_account(logins: Vec<KiroCliAccount>) -> (r: Result<KiroCliAccount, ImportError>)
    ensures
        match r {
            Ok(login) => logins.len() == 1 && login == logins[0],
            Err(ImportError::NoLogin) => logins.len() == 0,
            Err(ImportError::ManyLogins) => logins.len() > 1,
        },
{
    let mut logins = logins;
    if logins.len() > 1 {
        return Err(ImportError::ManyLogins);
    }
    match logins.pop() {
        Some(login) => Ok(login),
        None => Err(ImportError::NoLogin),
    }
}

/// The login came about through a social network.
pub open spec fn is_social(cli: CliAccountView) -> bool {
    cli.auth_method == "social"@
}

/// Who a login is with. `builder_id_url` says whether the start URL is that of Builder ID.
pub open spec fn provider_of(cli: CliAccountView, builder_id_url: bool) -> Seq<char> {
    if is_social(cli) {
        match cli.profile_arn {
            Some(arn) => if text::contains_text(arn, "google"@) {
                "Google"@
            } else if text::contains_text(arn, "github"@) {
                "Github"@
            } else {
                "Unknown"@
            },
            None => "Unknown"@,
        }
    } else if text::is_unfilled(cli.start_url) || builder_id_url {
        "BuilderId"@
    } else {
        "Enterprise"@
    }
}

/// The start URL of a login, where it has one to be held against that of Builder ID.
pub fn start_url_to_judge(cli: &KiroCliAccount) -> (r: Option<&str>)
    ensures
        text::str_of(r) == text::filled(cli@.start_url),
{
    text::filled_text(&cli.start_url)
}

/// Who a login is with: a social login is told by its profile, any other one by its start URL.
/// Without a start URL, or with that of Builder ID, it is a Builder ID; a company has a start
/// URL of its own.
///
/// `builder_id_url` says whether the URL of [`start_url_to_judge`] is that of Builder ID; it is
/// looked at only when there is one.
pub fn determine_provider(cli_account: &KiroCliAccount, builder_id_url: bool) -> (r: String)
    ensures
        r@ == provider_of(cli_account@, builder_id_url),
{
    if text::same_text(cli_account.auth_method.as_str(), "social") {
        match &cli_account.profile_arn {
            Some(arn) => {
                if text::contains(arn.as_str(), "google") {
                    return "Google".to_owned();
                } else if text::contains(arn.as_str(), "github") {
                    return "Github".to_owned();
                }
            },
            None => {},
        }
        return "Unknown".to_owned();
    }
    match start_url_to_judge(cli_account) {
        Some(_) => if builder_id_url {
            "BuilderId".to_owned()
        } else {
            "Enterprise".to_owned()
        },
        None => "BuilderId".to_owned(),
    }
}

/// Accepts the accounts with this refresh token.
pub open spec fn with_refresh_token(token: Seq<char>) -> spec_fn(AccountView) -> bool {
    |a: AccountView| a.refresh_token == Some(token)
}

/// The machine id that is already in use with this refresh token: that of the first account
/// that has the token, unless it is missing or blank.
pub open spec fn known_machine_id(accounts: Seq<AccountView>, token: Seq<char>) -> Option<
    Seq<char>,
> {
    match account::first_where(accounts, with_refresh_token(token)) {
        Some(i) => if text::is_unfilled(accounts[i].machine_id) {
            None
        } else {
            accounts[i].machine_id
        },
        None => None,
    }
}

/// The machine id that is already in use with this refresh token; without one the login needs a
/// new machine id.
pub fn reusable_machine_id(accounts: &Vec<Account>, refresh_token: &str) -> (r: Option<String>)
    ensures
        text::text_of(r) == known_machine_id(account::accounts_view(accounts@), refresh_token@),
{
    let ghost seen = account::accounts_view(accounts@);
    let ghost wanted = with_refresh_token(refresh_token@);
    let mut i: usize = 0;
    while i < accounts.len()
        invariant
            i <= accounts.len(),
            seen == account::accounts_view(accounts@),
            wanted == with_refresh_token(refresh_token@),
            forall|j: int| 0 <= j < i ==> !wanted(#[trigger] seen[j]),
        decreases accounts.len() - i,
    {
        let a = &accounts[i];
        assert(seen[i as int] == a@);
        if text::field_is(&a.refresh_token, refresh_token) {
            proof {
                account::lemma_first_where_is(seen, wanted, i as int);
            }
            return if text::filled_text(&a.machine_id).is_some() {
                text::copy_field(&a.machine_id)
            } else {
                None
            };
        }
        i = i + 1;
    }
    proof {
        account::lemma_first_where_none(seen, wanted);
    }
    None
}

// ---------------------------------------------------------------------------------------------
// Results
// ---------------------------------------------------------------------------------------------

/// The outcome of an import.
#[derive(Debug, PartialEq, Eq)]
pub struct KiroCliImportResult {
    pub success: bool,
    pub is_new: bool,
    pub account: Option<Account>,
    pub error: Option<String>,
}

/// The contents of a [`KiroCliImportResult`].
pub struct ImportResultView {
    pub success: bool,
    pub is_new: bool,
    pub account: Option<AccountView>,
    pub error: Option<Seq<char>>,
}

/// The contents of an account, if there is one.
pub open spec fn account_view(a: Option<Account>) -> Option<AccountView> {
    match a {
        Some(a) => Some(a@),
        None => None,
    }
}

impl View for KiroCliImportResult {
    type V = ImportResultView;

    open spec fn view(&self) -> ImportResultView {
        ImportResultView {
            success: self.success,
            is_new: self.is_new,
            account: account_view(self.account),
            error: text::text_of(self.error),
        }
    }
}

/// The contents of a result, if there is one.
pub open spec fn result_view(r: Option<KiroCliImportResult>) -> Option<ImportResultView> {
    match r {
        Some(r) => Some(r@),
        None => None,
    }
}

/// A failed import.
pub open spec fn failure(message: Seq<char>) -> ImportResultView {
    ImportResultView { success: false, is_new: false, account: None, error: Some(message) }
}

/// A successful import.
pub open spec fn success(is_new: bool, a: AccountView) -> ImportResultView {
    ImportResultView { success: true, is_new, account: Some(a), error: None }
}

fn failed(message: String) -> (r: KiroCliImportResult)
    ensures
        r@ == failure(message@),
{
    KiroCliImportResult { success: false, is_new: false, account: None, error: Some(message) }
}

// ---------------------------------------------------------------------------------------------
// Runs
// ---------------------------------------------------------------------------------------------

/// What an import waits for.
#[derive(Clone, Copy, Debug, PartialEq, Eq, Structural)]
pub enum ImportStage {
    /// The usage report of the login: [`ImportRun::on_usage`] or [`ImportRun::on_usage_failed`].
    AskingUsage,
    /// The reply of the account service: [`ImportRun::on_account_service`].
    AskingAccountService,
    /// A look into the locked store: [`ImportRun::on_store`].
    LookingUp,
    /// A bare account for [`ImportRun::seed`] and `label`: [`ImportRun::on_created`].
    Creating,
    /// The account's status after this report: [`ImportRun::on_status_updated`].
    UpdatingStatus,
    /// Start URL and client id hash for [`start_url_source`]: [`ImportRun::on_login_resolved`].
    ResolvingLogin,
    /// The write into the locked store: [`ImportRun::commit`].
    Committing,
    /// The import is over; `result` says how.
    Finished,
}

/// The usage report of a login.
#[derive(Debug, PartialEq, Eq)]
pub struct UsageReport {
    /// Whom the report names.
    pub info: UserInfo,
    /// The report itself, as JSON text.
    pub usage_data: String,
    pub is_banned: bool,
    pub is_auth_error: bool,
}

/// The import of one login.
pub struct ImportRun {
    pub cli: KiroCliAccount,
    pub provider: String,
    /// The machine id that the usage was asked with.
    pub machine_id: String,
    /// Whom the login belongs to, as far as it is known.
    pub info: UserInfo,
    pub usage_data: Option<String>,
    pub is_banned: bool,
    pub is_auth_error: bool,
    /// Where the account is already stored.
    pub existing: Option<usize>,
    pub label: String,
    /// The account as far as it is put together.
    pub account: Option<Account>,
    pub result: Option<KiroCliImportResult>,
    pub stage: ImportStage,
}

/// The contents of an [`ImportRun`].
pub struct ImportView {
    pub cli: CliAccountView,
    pub provider: Seq<char>,
    pub machine_id: Seq<char>,
    pub info: UserInfoView,
    pub usage_data: Option<Seq<char>>,
    pub is_banned: bool,
    pub is_auth_error: bool,
    pub existing: Option<int>,
    pub label: Seq<char>,
    pub account: Option<AccountView>,
    pub result: Option<ImportResultView>,
    pub stage: ImportStage,
}

impl View for ImportRun {
    type V = ImportView;

    open spec fn view(&self) -> ImportView {
        ImportView {
            cli: self.cli@,
            provider: self.provider@,
            machine_id: self.machine_id@,
            info: self.info@,
            usage_data: text::text_of(self.usage_data),
            is_banned: self.is_banned,
            is_auth_error: self.is_auth_error,
            existing: account::position_view(self.existing),
            label: self.label@,
            account: account_view(self.account),
            result: result_view(self.result),
            stage: self.stage,
        }
    }
}

/// An import that has just begun.
pub open spec fn new_import(
    cli: CliAccountView,
    builder_id_url: bool,
    machine_id: Seq<char>,
) -> ImportView {
    ImportView {
        cli,
        provider: provider_of(cli, builder_id_url),
        machine_id,
        info: user_info::nobody(),
        usage_data: None,
        is_banned: false,
        is_auth_error: false,
        existing: None,
        label: Seq::empty(),
        account: None,
        result: None,
        stage: ImportStage::AskingUsage,
    }
}

impl ImportView {
    /// The import at another stage.
    pub open spec fn at(self, stage: ImportStage) -> ImportView {
        ImportView { stage, ..self }
    }

    /// The import, failed with this message.
    pub open spec fn failed(self, message: Seq<char>) -> ImportView {
        ImportView { result: Some(failure(message)), stage: ImportStage::Finished, ..self }
    }
}

// ---------------------------------------------------------------------------------------------
// Whom the login belongs to
// ---------------------------------------------------------------------------------------------

/// Whom the client secret of a login names.
pub open spec fn secret_user(cli: CliAccountView) -> UserInfoView {
    match cli.client_secret {
        Some(secret) => user_info::token_user(secret),
        None => user_info::nobody(),
    }
}

/// The usage report arrived. A company's report may name nobody; then the client secret is
/// asked, and after it the account service.
pub open spec fn after_usage(
    run: ImportView,
    info: UserInfoView,
    usage_data: Seq<char>,
    is_banned: bool,
    is_auth_error: bool,
) -> ImportView {
    if run.stage != ImportStage::AskingUsage {
        run
    } else {
        let reported = ImportView {
            usage_data: Some(usage_data),
            is_banned,
            is_auth_error,
            ..run
        };
        if run.provider != "Enterprise"@ || info != user_info::nobody() {
            ImportView { info, stage: ImportStage::LookingUp, ..reported }
        } else if secret_user(run.cli) != user_info::nobody() {
            ImportView { info: secret_user(run.cli), stage: ImportStage::LookingUp, ..reported }
        } else {
            ImportView { info, stage: ImportStage::AskingAccountService, ..reported }
        }
    }
}

/// There is no usage report.
pub open spec fn after_usage_failure(run: ImportView, message: Seq<char>) -> ImportView {
    if run.stage != ImportStage::AskingUsage {
        run
    } else {
        run.failed("获取账号信息失败: "@ + message)
    }
}

/// The account service replied, or did not; then nobody is named.
pub open spec fn after_account_service(run: ImportView, info: UserInfoView) -> ImportView {
    if run.stage != ImportStage::AskingAccountService {
        run
    } else {
        ImportView { info, stage: ImportStage::LookingUp, ..run }
    }
}

// ---------------------------------------------------------------------------------------------
// Putting the account together
// ---------------------------------------------------------------------------------------------

/// The label of the account: its own when it is already stored.
pub open spec fn label_for(
    accounts: Seq<AccountView>,
    existing: Option<int>,
    token_key: Seq<char>,
) -> Seq<char> {
    match existing {
        Some(i) => accounts[i].label,
        None => account::import_label(token_key),
    }
}

/// The store was looked into. Without e-mail address and user id there is no account.
pub open spec fn after_store(run: ImportView, accounts: Seq<AccountView>) -> ImportView {
    if run.stage != ImportStage::LookingUp {
        run
    } else {
        let existing = account::existing_position(accounts, run.info.user_id);
        let found = ImportView {
            existing,
            label: label_for(accounts, existing, run.cli.token_key),
            ..run
        };
        if run.info == user_info::nobody() {
            found.failed("无法获取账号标识（email 或 userId）"@)
        } else {
            found.at(ImportStage::Creating)
        }
    }
}

/// The account with what every login brings.
pub open spec fn with_login(a: AccountView, run: ImportView) -> AccountView {
    AccountView {
        access_token: Some(run.cli.access_token),
        refresh_token: Some(run.cli.refresh_token),
        expires_at: run.cli.expires_at,
        provider: Some(run.provider),
        user_id: run.info.user_id,
        region: Some(run.cli.region),
        usage_data: run.usage_data,
        ..a
    }
}

/// A bare account was created.
pub open spec fn after_creation(run: ImportView, a: AccountView) -> ImportView {
    if run.stage != ImportStage::Creating {
        run
    } else {
        ImportView {
            account: Some(with_login(a, run)),
            stage: ImportStage::UpdatingStatus,
            ..run
        }
    }
}

/// The account with what a social login brings.
pub open spec fn with_social_login(a: AccountView, cli: CliAccountView) -> AccountView {
    AccountView { auth_method: Some("social"@), profile_arn: cli.profile_arn, ..a }
}

/// The account with what any other login brings.
pub open spec fn with_idc_login(a: AccountView, cli: CliAccountView) -> AccountView {
    AccountView {
        auth_method: Some("IdC"@),
        client_id: cli.client_id,
        client_secret: cli.client_secret,
        ..a
    }
}

/// The account's status was brought up to date.
pub open spec fn after_status_update(run: ImportView, a: AccountView) -> ImportView {
    if run.stage != ImportStage::UpdatingStatus {
        run
    } else if is_social(run.cli) {
        ImportView {
            account: Some(with_social_login(a, run.cli)),
            stage: ImportStage::Committing,
            ..run
        }
    } else {
        ImportView {
            account: Some(with_idc_login(a, run.cli)),
            stage: ImportStage::ResolvingLogin,
            ..run
        }
    }
}

/// Where the start URL of a login comes from.
#[derive(Debug, PartialEq, Eq)]
pub enum StartUrlSource {
    /// The login brings it.
    Login(String),
    /// It may be in this client secret.
    Secret(String),
    Missing,
}

/// Where the start URL of a login comes from: the login itself, else its client secret.
pub fn start_url_source(cli: &KiroCliAccount) -> (r: StartUrlSource)
    ensures
        match r {
            StartUrlSource::Login(url) => !text::is_unfilled(cli@.start_url) && cli@.start_url
                == Some(url@),
            StartUrlSource::Secret(secret) => text::is_unfilled(cli@.start_url)
                && cli@.client_secret == Some(secret@),
            StartUrlSource::Missing => text::is_unfilled(cli@.start_url) && cli@.client_secret
                is None,
        },
{
    match &cli.start_url {
        Some(url) => {
            if !url.as_str().trim().is_empty() {
                return StartUrlSource::Login(url.clone());
            }
        },
        None => {},
    }
    match &cli.client_secret {
        Some(secret) => StartUrlSource::Secret(secret.clone()),
        None => StartUrlSource::Missing,
    }
}

/// Start URL and client id hash were found, or the hash was refused; then nothing is stored.
pub open spec fn after_login_resolution(
    run: ImportView,
    start_url: Option<Seq<char>>,
    hash: Result<Seq<char>, Seq<char>>,
) -> ImportView {
    if run.stage != ImportStage::ResolvingLogin {
        run
    } else {
        match (run.account, hash) {
            (Some(a), Ok(h)) => ImportView {
                account: Some(AccountView { client_id_hash: Some(h), start_url, ..a }),
                stage: ImportStage::Committing,
                ..run
            },
            (_, Err(message)) => run.failed("解析 clientIdHash 失败: "@ + message),
            _ => run,
        }
    }
}

// ---------------------------------------------------------------------------------------------
// The write
// ---------------------------------------------------------------------------------------------

/// The account that takes the place of a stored one: it keeps the id, and the machine id unless
/// that is missing or blank.
pub open spec fn in_place_of(
    a: AccountView,
    stored: AccountView,
    machine_id: Seq<char>,
) -> AccountView {
    AccountView {
        id: stored.id,
        machine_id: if text::is_unfilled(stored.machine_id) {
            Some(machine_id)
        } else {
            stored.machine_id
        },
        ..a
    }
}

/// The account that goes into the store.
pub open spec fn committed_account(
    run: ImportView,
    a: AccountView,
    accounts: Seq<AccountView>,
) -> AccountView {
    match run.existing {
        Some(i) => in_place_of(a, accounts[i], run.machine_id),
        None => AccountView { machine_id: Some(run.machine_id), ..a },
    }
}

/// Import and store after the write.
pub open spec fn after_commit(run: ImportView, accounts: Seq<AccountView>) -> (
    ImportView,
    Seq<AccountView>,
) {
    match run.account {
        Some(a) if run.stage == ImportStage::Committing => {
            let done = committed_account(run, a, accounts);
            (
                ImportView {
                    account: None,
                    result: Some(success(run.existing is None, done)),
                    stage: ImportStage::Finished,
                    ..run
                },
                match run.existing {
                    Some(i) => accounts.update(i, done),
                    None => accounts.push(done),
                },
            )
        },
        _ => (run, accounts),
    }
}

// ---------------------------------------------------------------------------------------------
// Execution
// ---------------------------------------------------------------------------------------------

/// What a bare account is created for.
#[derive(Debug, PartialEq, Eq)]
pub enum AccountSeed {
    /// A personal account with this e-mail address.
    Email(String),
    /// A company's account with this user id.
    UserId(String),
}

/// The text of a result.
pub open spec fn hash_view(hash: Result<String, String>) -> Result<Seq<char>, Seq<char>> {
    match hash {
        Ok(h) => Ok(h@),
        Err(e) => Err(e@),
    }
}

impl ImportRun {
    /// Begins the import of a login. `builder_id_url` says whether the start URL of the login is
    /// that of Builder ID; `machine_id` is the one to ask for the usage with.
    pub fn new(cli: KiroCliAccount, builder_id_url: bool, machine_id: String) -> (r: ImportRun)
        ensures
            r@ == new_import(cli@, builder_id_url, machine_id@),
    {
        let provider = determine_provider(&cli, builder_id_url);
        ImportRun {
            cli,
            provider,
            machine_id,
            info: UserInfo::unknown(),
            usage_data: None,
            is_banned: false,
            is_auth_error: false,
            existing: None,
            label: String::new(),
            account: None,
            result: None,
            stage: ImportStage::AskingUsage,
        }
    }

    /// The usage report arrived.
    pub fn on_usage(&mut self, report: UsageReport)
        ensures
            final(self)@ == after_usage(
                old(self)@,
                report.info@,
                report.usage_data@,
                report.is_banned,
                report.is_auth_error,
            ),
    {
        if self.stage == ImportStage::AskingUsage {
            self.usage_data = Some(report.usage_data);
            self.is_banned = report.is_banned;
            self.is_auth_error = report.is_auth_error;
            if text::same_text(self.provider.as_str(), "Enterprise") && report.info.is_unknown() {
                let named = match &self.cli.client_secret {
                    Some(secret) => user_info::extract_user_info_from_jwt(secret.as_str()),
                    None => UserInfo::unknown(),
                };
                if named.is_unknown() {
                    self.info = report.info;
                    self.stage = ImportStage::AskingAccountService;
                } else {
                    self.info = named;
                    self.stage = ImportStage::LookingUp;
                }
            } else {
                self.info = report.info;
                self.stage = ImportStage::LookingUp;
            }
        }
    }

    /// The usage could not be asked for.
    pub fn on_usage_failed(&mut self, message: &str)
        ensures
            final(self)@ == after_usage_failure(old(self)@, message@),
    {
        if self.stage == ImportStage::AskingUsage {
            self.result = Some(failed(text::joined("获取账号信息失败: ", message)));
            self.stage = ImportStage::Finished;
        }
    }

    /// The account service named someone, or nobody.
    pub fn on_account_service(&mut self, info: UserInfo)
        ensures
            final(self)@ == after_account_service(old(self)@, info@),
    {
        if self.stage == ImportStage::AskingAccountService {
            self.info = info;
            self.stage = ImportStage::LookingUp;
        }
    }

    /// The store was locked and is looked into.
    pub fn on_store(&mut self, accounts: &Vec<Account>)
        ensures
            final(self)@ == after_store(old(self)@, account::accounts_view(accounts@)),
    {
        if self.stage == ImportStage::LookingUp {
            let existing = account::find_existing_account(
                accounts.as_slice(),
                self.info.user_id.as_ref(),
                self.info.email.as_ref(),
            );
            let stored = match existing {
                Some(i) => Some(&accounts[i]),
                None => None,
            };
            self.label = account::create_account_label(
                existing.is_none(),
                self.cli.token_key.as_str(),
                stored,
            );
            self.existing = existing;
            if self.info.is_unknown() {
                self.result = Some(failed("无法获取账号标识（email 或 userId）".to_owned()));
                self.stage = ImportStage::Finished;
            } else {
                self.stage = ImportStage::Creating;
            }
        }
    }

    /// What a bare account is to be created for: the e-mail address counts before the user id.
    pub fn seed(&self) -> (r: Option<AccountSeed>)
        ensures
            match r {
                Some(AccountSeed::Email(email)) => self@.info.email == Some(email@),
                Some(AccountSeed::UserId(uid)) => self@.info.email is None && self@.info.user_id
                    == Some(uid@),
                None => self@.info == user_info::nobody(),
            },
    {
        match &self.info.email {
            Some(email) => Some(AccountSeed::Email(email.clone())),
            None => match &self.info.user_id {
                Some(uid) => Some(AccountSeed::UserId(uid.clone())),
                None => None,
            },
        }
    }

    /// A bare account was created.
    pub fn on_created(&mut self, account: Account)
        ensures
            final(self)@ == after_creation(old(self)@, account@),
    {
        if self.stage == ImportStage::Creating {
            let mut a = account;
            a.access_token = Some(self.cli.access_token.clone());
            a.refresh_token = Some(self.cli.refresh_token.clone());
            a.expires_at = text::copy_field(&self.cli.expires_at);
            a.provider = Some(self.provider.clone());
            a.user_id = text::copy_field(&self.info.user_id);
            a.region = Some(self.cli.region.clone());
            a.usage_data = text::copy_field(&self.usage_data);
            self.account = Some(a);
            self.stage = ImportStage::UpdatingStatus;
        }
    }

    /// The status of the account was brought up to date with the usage report.
    pub fn on_status_updated(&mut self, account: Account)
        ensures
            final(self)@ == after_status_update(old(self)@, account@),
    {
        if self.stage == ImportStage::UpdatingStatus {
            let mut a = account;
            if text::same_text(self.cli.auth_method.as_str(), "social") {
                a.auth_method = Some("social".to_owned());
                a.profile_arn = text::copy_field(&self.cli.profile_arn);
                self.stage = ImportStage::Committing;
            } else {
                a.auth_method = Some("IdC".to_owned());
                a.client_id = text::copy_field(&self.cli.client_id);
                a.client_secret = text::copy_field(&self.cli.client_secret);
                self.stage = ImportStage::ResolvingLogin;
            }
            self.account = Some(a);
        }
    }

    /// Start URL and client id hash were found, or the hash was refused.
    pub fn on_login_resolved(&mut self, start_url: Option<String>, hash: Result<String, String>)
        ensures
            final(self)@ == after_login_resolution(
                old(self)@,
                text::text_of(start_url),
                hash_view(hash),
            ),
    {
        if self.stage == ImportStage::ResolvingLogin {
            match hash {
                Ok(h) => match self.account.take() {
                    Some(account) => {
                        let mut a = account;
                        a.client_id_hash = Some(h);
                        a.start_url = start_url;
                        self.account = Some(a);
                        self.stage = ImportStage::Committing;
                    },
                    None => {},
                },
                Err(message) => {
                    self.result = Some(
                        failed(text::joined("解析 clientIdHash 失败: ", message.as_str())),
                    );
                    self.stage = ImportStage::Finished;
                },
            }
        }
    }

    /// Puts the account into the store, in place of a stored one or at the end. Says whether the
    /// store is to be saved.
    pub fn commit(&mut self, accounts: &mut Vec<Account>) -> (saved: bool)
        requires
            old(self)@.existing matches Some(i) ==> i < old(accounts).len(),
        ensures
            ({
                let (run, stored) = after_commit(
                    old(self)@,
                    account::accounts_view(old(accounts)@),
                );
                final(self)@ == run && account::accounts_view(final(accounts)@) == stored
            }),
            saved == (old(self)@.stage == ImportStage::Committing && old(self)@.account is Some),
    {
        if self.stage != ImportStage::Committing {
            return false;
        }
        match self.account.take() {
            Some(account) => {
                let mut a = account;
                match self.existing {
                    Some(i) => {
                        let stored = &accounts[i];
                        a.machine_id = if text::filled_text(&stored.machine_id).is_some() {
                            text::copy_field(&stored.machine_id)
                        } else {
                            Some(self.machine_id.clone())
                        };
                        a.id = stored.id.clone();
                        let copy = a.clone();
                        accounts.set(i, copy);
                    },
                    None => {
                        a.machine_id = Some(self.machine_id.clone());
                        let copy = a.clone();
                        accounts.push(copy);
                    },
                }
                proof {
                    let before = account::accounts_view(old(accounts)@);
                    assert(account::accounts_view(accounts@) =~= after_commit(old(self)@, before).1);
                }
                self.result = Some(
                    KiroCliImportResult {
                        success: true,
                        is_new: self.existing.is_none(),
                        account: Some(a),
                        error: None,
                    },
                );
                self.stage = ImportStage::Finished;
                true
            },
            None => false,
        }
    }
}

} // verus!
