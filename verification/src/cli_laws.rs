//! What holds of every import from the command line and every switch of it.
use crate::account;
use crate::account::{Account, AccountView, CliAccountView, KiroCliAccount};
use crate::cli_import;
use crate::cli_import::{
    AccountSeed, ImportError, ImportRun, ImportStage, ImportView, StartUrlSource,
};
use crate::cli_switch;
use crate::cli_switch::{SwitchFailure, SwitchRun, SwitchStage, SwitchView};
use crate::text;
use crate::user_info;
use crate::user_info::UserInfoView;
use vstd::prelude::*;

verus! {

// ---------------------------------------------------------------------------------------------
// Providers
// ---------------------------------------------------------------------------------------------

/// A login that is not social is a company's exactly when it brings a start URL and that URL is
/// not the one of Builder ID; otherwise it is a Builder ID.
pub proof fn law_start_url_tells_companies_apart(cli: CliAccountView, builder_id_url: bool)
    requires
        !cli_import::is_social(cli),
    ensures
        cli_import::provider_of(cli, builder_id_url) == "Enterprise"@ <==> !text::is_unfilled(
            cli.start_url,
        ) && !builder_id_url,
        cli_import::provider_of(cli, builder_id_url) == "BuilderId"@ <==> text::is_unfilled(
            cli.start_url,
        ) || builder_id_url,
{
    reveal_strlit("Enterprise");
    reveal_strlit("BuilderId");
    assert("Enterprise"@.len() != "BuilderId"@.len());
}

/// A social login is never taken for a company's or a Builder ID, whatever start URL it brings.
pub proof fn law_social_login_is_no_company(cli: CliAccountView, builder_id_url: bool)
    requires
        cli_import::is_social(cli),
    ensures
        ({
            let provider = cli_import::provider_of(cli, builder_id_url);
            provider == "Google"@ || provider == "Github"@ || provider == "Unknown"@
        }),
        cli_import::provider_of(cli, builder_id_url) != "Enterprise"@,
        cli_import::provider_of(cli, builder_id_url) != "BuilderId"@,
{
    reveal_strlit("Enterprise");
    reveal_strlit("BuilderId");
    reveal_strlit("Google");
    reveal_strlit("Github");
    reveal_strlit("Unknown");
    assert("Enterprise"@.len() == 10 && "BuilderId"@.len() == 9);
    assert("Google"@.len() == 6 && "Github"@.len() == 6 && "Unknown"@.len() == 7);
}

// ---------------------------------------------------------------------------------------------
// Imports
// ---------------------------------------------------------------------------------------------

/// Something that can happen to an import.
pub enum ImportEvent {
    Usage {
        info: UserInfoView,
        usage_data: Seq<char>,
        is_banned: bool,
        is_auth_error: bool,
    },
    UsageFailed { message: Seq<char> },
    AccountService { info: UserInfoView },
    Store { accounts: Seq<AccountView> },
    Created { account: AccountView },
    StatusUpdated { account: AccountView },
    LoginResolved { start_url: Option<Seq<char>>, hash: Result<Seq<char>, Seq<char>> },
    Commit { accounts: Seq<AccountView> },
}

/// The import after an event.
pub open spec fn after_import_event(run: ImportView, event: ImportEvent) -> ImportView {
    match event {
        ImportEvent::Usage { info, usage_data, is_banned, is_auth_error } => cli_import::after_usage(
            run,
            info,
            usage_data,
            is_banned,
            is_auth_error,
        ),
        ImportEvent::UsageFailed { message } => cli_import::after_usage_failure(run, message),
        ImportEvent::AccountService { info } => cli_import::after_account_service(run, info),
        ImportEvent::Store { accounts } => cli_import::after_store(run, accounts),
        ImportEvent::Created { account } => cli_import::after_creation(run, account),
        ImportEvent::StatusUpdated { account } => cli_import::after_status_update(run, account),
        ImportEvent::LoginResolved { start_url, hash } => cli_import::after_login_resolution(
            run,
            start_url,
            hash,
        ),
        ImportEvent::Commit { accounts } => cli_import::after_commit(run, accounts).0,
    }
}

/// The import after a series of events.
pub open spec fn after_import_events(run: ImportView, events: Seq<ImportEvent>) -> ImportView
    decreases events.len(),
{
    if events.len() == 0 {
        run
    } else {
        after_import_event(after_import_events(run, events.drop_last()), events.last())
    }
}

/// How many stages can still lie ahead of an import.
pub open spec fn import_stages_ahead(stage: ImportStage) -> nat {
    match stage {
        ImportStage::AskingUsage => 7,
        ImportStage::AskingAccountService => 6,
        ImportStage::LookingUp => 5,
        ImportStage::Creating => 4,
        ImportStage::UpdatingStatus => 3,
        ImportStage::ResolvingLogin => 2,
        ImportStage::Committing => 1,
        ImportStage::Finished => 0,
    }
}

/// An event that belongs to the stage of an import brings it closer to its end; any other
/// changes nothing.
pub proof fn law_every_import_event_leads_on(run: ImportView, event: ImportEvent)
    ensures
        ({
            let r = after_import_event(run, event);
            import_stages_ahead(r.stage) < import_stages_ahead(run.stage) || r == run
        }),
{
}

/// What an import has put together by the time it is at its stage.
pub open spec fn import_is_sound(cli: CliAccountView, builder_id_url: bool, run: ImportView) -> bool {
    &&& run.cli == cli
    &&& run.provider == cli_import::provider_of(cli, builder_id_url)
    &&& run.stage == ImportStage::Finished <==> run.result is Some
    &&& run.stage == ImportStage::Creating ==> run.info != user_info::nobody()
    &&& run.stage == ImportStage::ResolvingLogin ==> run.account is Some
        && !cli_import::is_social(cli)
    &&& run.stage == ImportStage::Committing ==> run.account is Some
    &&& run.result matches Some(r) ==> {
        &&& r.success == r.account is Some
        &&& r.success == r.error is None
        &&& r.is_new ==> r.success
    }
}

/// Whatever happens, an import stays with its login and provider, has a result exactly when it
/// is over, and reports either an account or an error. It never comes to a write without an
/// account.
pub proof fn law_import_is_sound(
    cli: CliAccountView,
    builder_id_url: bool,
    machine_id: Seq<char>,
    events: Seq<ImportEvent>,
)
    ensures
        import_is_sound(
            cli,
            builder_id_url,
            after_import_events(cli_import::new_import(cli, builder_id_url, machine_id), events),
        ),
    decreases events.len(),
{
    if events.len() > 0 {
        law_import_is_sound(cli, builder_id_url, machine_id, events.drop_last());
    }
}

/// Only the write changes the store, and it does so only for an import that came through: after
/// a failure nothing is stored.
pub proof fn law_failed_import_stores_nothing(run: ImportView, accounts: Seq<AccountView>)
    requires
        run.stage != ImportStage::Committing,
    ensures
        cli_import::after_commit(run, accounts) == (run, accounts),
{
}

/// A client id hash that is refused ends the import without an account, so that no unusable
/// login is stored.
pub proof fn law_refused_hash_stores_nothing(
    run: ImportView,
    start_url: Option<Seq<char>>,
    message: Seq<char>,
    accounts: Seq<AccountView>,
)
    requires
        run.stage == ImportStage::ResolvingLogin,
    ensures
        ({
            let r = cli_import::after_login_resolution(run, start_url, Err(message));
            &&& r.result == Some(cli_import::failure("解析 clientIdHash 失败: "@ + message))
            &&& cli_import::after_commit(r, accounts) == (r, accounts)
        }),
{
}

/// A write touches one account: a stored one keeps id and position, and a machine id that it
/// has; a new one comes last. All others stay as they are.
pub proof fn law_write_touches_one_account(run: ImportView, accounts: Seq<AccountView>)
    requires
        run.stage == ImportStage::Committing,
        run.account is Some,
        run.existing matches Some(i) ==> 0 <= i < accounts.len(),
    ensures
        ({
            let (r, stored) = cli_import::after_commit(run, accounts);
            match run.existing {
                Some(i) => {
                    &&& stored.len() == accounts.len()
                    &&& stored[i].id == accounts[i].id
                    &&& !text::is_unfilled(accounts[i].machine_id) ==> stored[i].machine_id
                        == accounts[i].machine_id
                    &&& forall|j: int|
                        0 <= j < accounts.len() && j != i ==> #[trigger] stored[j] == accounts[j]
                    &&& r.result == Some(cli_import::success(false, stored[i]))
                },
                None => {
                    &&& stored.len() == accounts.len() + 1
                    &&& stored.drop_last() == accounts
                    &&& r.result == Some(cli_import::success(true, stored.last()))
                },
            }
        }),
{
    if run.existing is None {
        let stored = cli_import::after_commit(run, accounts).1;
        assert(stored.drop_last() =~= accounts);
    }
}

/// Importing a user a second time replaces the account of the first time instead of adding
/// another one.
pub proof fn law_second_import_replaces(
    run: ImportView,
    accounts: Seq<AccountView>,
    uid: Seq<char>,
)
    requires
        run.stage == ImportStage::Committing,
        run.account matches Some(a) && a.user_id == Some(uid),
        run.existing == account::existing_position(accounts, Some(uid)),
    ensures
        ({
            let stored = cli_import::after_commit(run, accounts).1;
            account::existing_position(stored, Some(uid)) == Some(
                match run.existing {
                    Some(i) => i,
                    None => accounts.len() as int,
                },
            )
        }),
{
    let stored = cli_import::after_commit(run, accounts).1;
    let wanted = account::with_user_id(uid);
    account::lemma_first_where(accounts, wanted);
    let at = match run.existing {
        Some(i) => i,
        None => accounts.len() as int,
    };
    assert forall|j: int| 0 <= j < at implies !wanted(#[trigger] stored[j]) by {
        assert(stored[j] == accounts[j]);
        assert(!wanted(accounts[j]));
    }
    assert(wanted(stored[at]));
    account::lemma_first_where_is(stored, wanted, at);
}

/// The tokens that end up in the store are those of the login: if bringing the status up to date
/// changes nothing but the standing of the account, what is written has the login's tokens,
/// expiry, region and provider, and the user id that was found. It has the run's label and e-mail
/// address if the bare account was created with them.
pub proof fn law_import_brings_the_login(
    run: ImportView,
    bare: AccountView,
    updated: AccountView,
    start_url: Option<Seq<char>>,
    hash: Seq<char>,
    accounts: Seq<AccountView>,
)
    requires
        run.stage == ImportStage::Creating,
        run.existing matches Some(i) ==> 0 <= i < accounts.len(),
        updated == (AccountView {
            status: updated.status,
            enabled: updated.enabled,
            ..cli_import::with_login(bare, run)
        }),
    ensures
        ({
            let created = cli_import::after_creation(run, bare);
            let settled = cli_import::after_status_update(created, updated);
            let resolved = cli_import::after_login_resolution(settled, start_url, Ok(hash));
            let (r, stored) = cli_import::after_commit(resolved, accounts);
            &&& created.account == Some(cli_import::with_login(bare, run))
            &&& r.stage == ImportStage::Finished
            &&& r.result is Some && r.result->0.success && r.result->0.account is Some
            &&& {
                let a = r.result->0.account->0;
                &&& a.access_token == Some(run.cli.access_token)
                &&& a.refresh_token == Some(run.cli.refresh_token)
                &&& a.expires_at == run.cli.expires_at
                &&& a.region == Some(run.cli.region)
                &&& a.provider == Some(run.provider)
                &&& a.user_id == run.info.user_id
                &&& bare.label == run.label ==> a.label == run.label
                &&& bare.email == run.info.email ==> a.email == run.info.email
                &&& a.enabled == updated.enabled
                &&& stored == match run.existing {
                    Some(i) => accounts.update(i, a),
                    None => accounts.push(a),
                }
                &&& a.usage_data == run.usage_data
                &&& a.status == updated.status
                &&& cli_import::is_social(run.cli) ==> a.auth_method == Some("social"@)
                    && a.profile_arn == run.cli.profile_arn
                &&& !cli_import::is_social(run.cli) ==> a.auth_method == Some("IdC"@)
                    && a.client_id == run.cli.client_id && a.client_secret
                    == run.cli.client_secret && a.client_id_hash == Some(hash) && a.start_url
                    == start_url
            }
        }),
{
}

/// Importing a user again keeps the label of the stored account; a new account is named after the
/// key of the login. Both hold if the bare account was created with the run's label and bringing
/// the status up to date changes nothing but the standing of the account.
pub proof fn law_import_keeps_the_label(
    run: ImportView,
    bare: AccountView,
    updated: AccountView,
    start_url: Option<Seq<char>>,
    hash: Seq<char>,
    accounts: Seq<AccountView>,
)
    requires
        run.stage == ImportStage::LookingUp,
        run.info != user_info::nobody(),
        bare.label == cli_import::after_store(run, accounts).label,
        updated == (AccountView {
            status: updated.status,
            enabled: updated.enabled,
            ..cli_import::with_login(bare, cli_import::after_store(run, accounts))
        }),
    ensures
        ({
            let found = cli_import::after_store(run, accounts);
            let created = cli_import::after_creation(found, bare);
            let settled = cli_import::after_status_update(created, updated);
            let resolved = cli_import::after_login_resolution(settled, start_url, Ok(hash));
            let stored = cli_import::after_commit(resolved, accounts).1;
            match account::existing_position(accounts, run.info.user_id) {
                Some(i) => 0 <= i < accounts.len() && stored[i].label == accounts[i].label,
                None => stored.last().label == account::import_label(run.cli.token_key),
            }
        }),
{
    match run.info.user_id {
        Some(uid) => account::lemma_first_where(accounts, account::with_user_id(uid)),
        None => {},
    }
    let found = cli_import::after_store(run, accounts);
    law_import_brings_the_login(found, bare, updated, start_url, hash, accounts);
}

/// Whom a login belongs to is asked in this order: the usage report, the client secret, the
/// account service. The last two are asked for companies only, and each only when the one before
/// names nobody.
pub proof fn law_order_of_identification(
    run: ImportView,
    info: UserInfoView,
    usage_data: Seq<char>,
    is_banned: bool,
    is_auth_error: bool,
)
    requires
        run.stage == ImportStage::AskingUsage,
    ensures
        ({
            let r = cli_import::after_usage(run, info, usage_data, is_banned, is_auth_error);
            &&& info != user_info::nobody() ==> r.info == info && r.stage
                == ImportStage::LookingUp
            &&& run.provider != "Enterprise"@ ==> r.info == info && r.stage
                == ImportStage::LookingUp
            &&& r.stage == ImportStage::AskingAccountService ==> run.provider == "Enterprise"@
                && info == user_info::nobody() && cli_import::secret_user(run.cli)
                == user_info::nobody()
        }),
{
}

// ---------------------------------------------------------------------------------------------
// Switches
// ---------------------------------------------------------------------------------------------

/// Something that can happen to a switch.
pub enum SwitchEvent {
    Refreshed {
        access_token: Seq<char>,
        refresh_token: Option<Seq<char>>,
        expires_at: Seq<char>,
    },
    RefreshFailed,
    MachineId { accounts: Seq<AccountView>, machine_id: Seq<char> },
    Usage { accounts: Seq<AccountView>, usage_data: Seq<char>, is_banned: bool },
    UsageFailed,
}

/// The switch after an event.
pub open spec fn after_switch_event(run: SwitchView, event: SwitchEvent) -> SwitchView {
    match event {
        SwitchEvent::Refreshed { access_token, refresh_token, expires_at } =>
            cli_switch::after_refresh(run, access_token, refresh_token, expires_at),
        SwitchEvent::RefreshFailed => cli_switch::after_refresh_failure(run),
        SwitchEvent::MachineId { accounts, machine_id } => cli_switch::after_machine_id(
            run,
            accounts,
            machine_id,
        ).0,
        SwitchEvent::Usage { accounts, usage_data, is_banned } => cli_switch::after_usage(
            run,
            accounts,
            usage_data,
            is_banned,
        ).0,
        SwitchEvent::UsageFailed => cli_switch::after_usage_failure(run),
    }
}

/// The switch after a series of events.
pub open spec fn after_switch_events(run: SwitchView, events: Seq<SwitchEvent>) -> SwitchView
    decreases events.len(),
{
    if events.len() == 0 {
        run
    } else {
        after_switch_event(after_switch_events(run, events.drop_last()), events.last())
    }
}

/// How many stages can still lie ahead of a switch.
pub open spec fn switch_stages_ahead(stage: SwitchStage) -> nat {
    match stage {
        SwitchStage::Refreshing => 3,
        SwitchStage::NamingMachine => 2,
        SwitchStage::CheckingUsage => 1,
        SwitchStage::Ready => 0,
        SwitchStage::Failed(_) => 0,
    }
}

/// An event that belongs to the stage of a switch brings it closer to its end; any other changes
/// nothing.
pub proof fn law_every_switch_event_leads_on(run: SwitchView, event: SwitchEvent)
    ensures
        ({
            let r = after_switch_event(run, event);
            switch_stages_ahead(r.stage) < switch_stages_ahead(run.stage) || r == run
        }),
{
}

/// Whatever happens, the account that the command line is switched to is the one that was asked
/// for and has a provider, an access token and a machine id.
pub proof fn law_ready_account_is_complete(a: AccountView, events: Seq<SwitchEvent>)
    ensures
        ({
            let r = after_switch_events(cli_switch::new_switch(a), events);
            &&& r.account.id == a.id
            &&& r.account.provider == a.provider
            &&& r.stage == SwitchStage::Ready || r.stage == SwitchStage::CheckingUsage ==> {
                &&& r.account.provider is Some
                &&& r.account.access_token is Some
                &&& r.account.machine_id is Some
            }
        }),
    decreases events.len(),
{
    if events.len() > 0 {
        law_ready_account_is_complete(a, events.drop_last());
    }
}

/// A banned account that is in the store is never switched to.
pub proof fn law_banned_account_is_not_switched_to(
    run: SwitchView,
    accounts: Seq<AccountView>,
    usage_data: Seq<char>,
)
    requires
        run.stage == SwitchStage::CheckingUsage,
        account::position_of_id(accounts, run.account.id) is Some,
    ensures
        cli_switch::after_usage(run, accounts, usage_data, true).0.stage == SwitchStage::Failed(
            SwitchFailure::Banned,
        ),
{
}

/// A failed refresh or a missing usage report does not keep a complete account from being
/// switched to.
pub proof fn law_missing_replies_do_not_stop_a_switch(a: AccountView)
    requires
        a.refresh_token is Some,
        a.provider is Some,
        a.access_token is Some,
        !text::is_unfilled(a.machine_id),
    ensures
        cli_switch::after_usage_failure(
            cli_switch::after_refresh_failure(cli_switch::new_switch(a)),
        ) == (SwitchView { account: a, stage: SwitchStage::Ready }),
{
}

/// A stored machine id is never replaced, and no other account is touched.
pub proof fn law_stored_machine_id_stays(
    run: SwitchView,
    accounts: Seq<AccountView>,
    machine_id: Seq<char>,
)
    ensures
        ({
            let stored = cli_switch::after_machine_id(run, accounts, machine_id).1;
            &&& stored.len() == accounts.len()
            &&& forall|j: int|
                0 <= j < accounts.len() && !text::is_unfilled(accounts[j].machine_id)
                    ==> #[trigger] stored[j] == accounts[j]
            &&& forall|j: int|
                0 <= j < accounts.len() && accounts[j].id != run.account.id
                    ==> #[trigger] stored[j] == accounts[j]
        }),
{
    account::lemma_first_where(accounts, account::with_id(run.account.id));
}

// ---------------------------------------------------------------------------------------------
// What each step of an import does
// ---------------------------------------------------------------------------------------------

/// A social login is with Google when its profile says `google`, else with GitHub when it says
/// `github`, and with nobody known otherwise. Which logins are social is told by their method.
pub proof fn law_profile_tells_social_logins_apart(cli: CliAccountView, builder_id_url: bool)
    ensures
        cli_import::is_social(cli) <==> cli.auth_method == "social"@,
        cli.auth_method == "social"@ ==> {
            let provider = cli_import::provider_of(cli, builder_id_url);
            let google = cli.profile_arn is Some && text::contains_text(
                cli.profile_arn->0,
                "google"@,
            );
            let github = cli.profile_arn is Some && text::contains_text(
                cli.profile_arn->0,
                "github"@,
            );
            &&& google ==> provider == "Google"@
            &&& !google && github ==> provider == "Github"@
            &&& !google && !github ==> provider == "Unknown"@
        },
        cli.auth_method != "social"@ ==> {
            let provider = cli_import::provider_of(cli, builder_id_url);
            let url = cli.start_url is Some && text::trimmed(cli.start_url->0) != Seq::<
                char,
            >::empty();
            &&& url && !builder_id_url ==> provider == "Enterprise"@
            &&& !url || builder_id_url ==> provider == "BuilderId"@
        },
{
    if cli.start_url is Some && text::trimmed(cli.start_url->0).len() == 0 {
        assert(text::trimmed(cli.start_url->0) == Seq::<char>::empty());
    }
}

/// The account at position `i` has this refresh token, and none before it.
pub open spec fn is_first_with_token(
    accounts: Seq<AccountView>,
    token: Seq<char>,
    i: int,
) -> bool {
    &&& 0 <= i < accounts.len()
    &&& accounts[i].refresh_token == Some(token)
    &&& forall|j: int| 0 <= j < i ==> (#[trigger] accounts[j]).refresh_token != Some(token)
}

/// The machine id that is used again is that of the first account with the refresh token, letter
/// for letter; without such an account, or where its machine id is absent or blank, none is.
pub proof fn law_machine_id_goes_with_the_token(accounts: Seq<AccountView>, token: Seq<char>)
    ensures
        forall|i: int| #[trigger]
            is_first_with_token(accounts, token, i) ==> {
                let id = accounts[i].machine_id;
                let named = id is Some && text::trimmed(id->0) != Seq::<char>::empty();
                &&& named ==> cli_import::known_machine_id(accounts, token) == id
                &&& !named ==> cli_import::known_machine_id(accounts, token) is None
            },
        (forall|j: int|
            0 <= j < accounts.len() ==> (#[trigger] accounts[j]).refresh_token != Some(token))
            ==> cli_import::known_machine_id(accounts, token) is None,
{
    let wanted = cli_import::with_refresh_token(token);
    account::lemma_first_where(accounts, wanted);
    assert forall|i: int| #[trigger] is_first_with_token(accounts, token, i) implies {
        let id = accounts[i].machine_id;
        let named = id is Some && text::trimmed(id->0) != Seq::<char>::empty();
        &&& named ==> cli_import::known_machine_id(accounts, token) == id
        &&& !named ==> cli_import::known_machine_id(accounts, token) is None
    } by {
        account::lemma_first_where_is(accounts, wanted, i);
        let id = accounts[i].machine_id;
        if id is Some && text::trimmed(id->0).len() == 0 {
            assert(text::trimmed(id->0) == Seq::<char>::empty());
        }
    }
}

/// An import begins with its login, provider and machine id, and nothing else.
pub proof fn law_import_begins_with_the_login(
    cli: CliAccountView,
    builder_id_url: bool,
    machine_id: Seq<char>,
)
    ensures
        ({
            let run = cli_import::new_import(cli, builder_id_url, machine_id);
            &&& run.cli == cli
            &&& run.provider == cli_import::provider_of(cli, builder_id_url)
            &&& run.machine_id == machine_id
            &&& run.info.email is None && run.info.user_id is None
            &&& run.usage_data is None && !run.is_banned && !run.is_auth_error
            &&& run.existing is None && run.account is None && run.result is None
            &&& run.stage == ImportStage::AskingUsage
        }),
{
}

/// What the usage report says about the account is kept as reported: the report itself, whether
/// the account is banned, and whether its login was refused. The user is the one that the report
/// names; a company's login that the report leaves nameless is named by its client secret, and
/// where that names nobody either, the account service is asked.
pub proof fn law_report_is_taken_as_it_is(
    run: ImportView,
    info: UserInfoView,
    usage_data: Seq<char>,
    is_banned: bool,
    is_auth_error: bool,
)
    requires
        run.stage == ImportStage::AskingUsage,
    ensures
        ({
            let r = cli_import::after_usage(run, info, usage_data, is_banned, is_auth_error);
            let nameless = run.provider == "Enterprise"@ && info.email is None && info.user_id
                is None;
            let secret = user_info::token_user(run.cli.client_secret->0);
            let helps = run.cli.client_secret is Some && (secret.email is Some || secret.user_id
                is Some);
            &&& r.usage_data == Some(usage_data)
            &&& r.is_banned == is_banned
            &&& r.is_auth_error == is_auth_error
            &&& !nameless ==> r.info == info && r.stage == ImportStage::LookingUp
            &&& nameless && helps ==> r.info == secret && r.stage == ImportStage::LookingUp
            &&& nameless && !helps ==> r.info == info && r.stage
                == ImportStage::AskingAccountService
            &&& r == ImportView {
                usage_data: r.usage_data,
                is_banned: r.is_banned,
                is_auth_error: r.is_auth_error,
                info: r.info,
                stage: r.stage,
                ..run
            }
        }),
{
    user_info::law_nobody_has_no_name(info);
    if run.cli.client_secret is Some {
        user_info::law_nobody_has_no_name(user_info::token_user(run.cli.client_secret->0));
    }
}

/// Once the report is in, nothing that happens changes what it said, nor the login, its provider
/// or its machine id.
pub proof fn law_report_is_kept(run: ImportView, events: Seq<ImportEvent>)
    requires
        run.stage != ImportStage::AskingUsage,
    ensures
        ({
            let r = after_import_events(run, events);
            &&& r.usage_data == run.usage_data
            &&& r.is_banned == run.is_banned
            &&& r.is_auth_error == run.is_auth_error
            &&& r.cli == run.cli
            &&& r.provider == run.provider
            &&& r.machine_id == run.machine_id
            &&& r.stage != ImportStage::AskingUsage
        }),
    decreases events.len(),
{
    if events.len() > 0 {
        law_report_is_kept(run, events.drop_last());
    }
}

/// Over any history, an import that has its report has it exactly as it arrived.
pub proof fn law_status_sees_what_was_reported(
    run: ImportView,
    info: UserInfoView,
    usage_data: Seq<char>,
    is_banned: bool,
    is_auth_error: bool,
    events: Seq<ImportEvent>,
)
    requires
        run.stage == ImportStage::AskingUsage,
    ensures
        ({
            let reported = cli_import::after_usage(
                run,
                info,
                usage_data,
                is_banned,
                is_auth_error,
            );
            let r = after_import_events(reported, events);
            &&& r.usage_data == Some(usage_data)
            &&& r.is_banned == is_banned
            &&& r.is_auth_error == is_auth_error
        }),
{
    law_report_is_taken_as_it_is(run, info, usage_data, is_banned, is_auth_error);
    let reported = cli_import::after_usage(run, info, usage_data, is_banned, is_auth_error);
    law_report_is_kept(reported, events);
}

/// The import failed with this message and brought no account.
pub open spec fn failed_with(r: ImportView, message: Seq<char>) -> bool {
    &&& r.stage == ImportStage::Finished
    &&& r.result is Some
    &&& !r.result->0.success
    &&& !r.result->0.is_new
    &&& r.result->0.account is None
    &&& r.result->0.error == Some(message)
}

/// Without a usage report the import fails with the reason.
pub proof fn law_import_needs_a_report(run: ImportView, message: Seq<char>)
    requires
        run.stage == ImportStage::AskingUsage,
    ensures
        failed_with(
            cli_import::after_usage_failure(run, message),
            "获取账号信息失败: "@ + message,
        ),
{
}

/// Whom the account service names is taken as it is, and the store is looked into next.
pub proof fn law_account_service_is_taken_as_it_is(run: ImportView, info: UserInfoView)
    requires
        run.stage == ImportStage::AskingAccountService,
    ensures
        cli_import::after_account_service(run, info) == (ImportView {
            info,
            stage: ImportStage::LookingUp,
            ..run
        }),
{
}

/// A login that nobody is named for is not imported. Any other is imported in place of the first
/// account with its user id, under the label of that one, or as a new account under a label of its
/// own.
pub proof fn law_import_needs_a_name(run: ImportView, accounts: Seq<AccountView>)
    requires
        run.stage == ImportStage::LookingUp,
    ensures
        ({
            let r = cli_import::after_store(run, accounts);
            let uid = run.info.user_id;
            &&& run.info.email is None && uid is None ==> failed_with(
                r,
                "无法获取账号标识（email 或 userId）"@,
            )
            &&& run.info.email is Some || uid is Some ==> r.stage == ImportStage::Creating
                && r.result == run.result
            &&& r.existing matches Some(i) ==> {
                &&& uid is Some
                &&& 0 <= i < accounts.len()
                &&& accounts[i].user_id == uid
                &&& forall|j: int| 0 <= j < i ==> (#[trigger] accounts[j]).user_id != uid
                &&& r.label == accounts[i].label
            }
            &&& r.existing is None ==> {
                &&& uid is None || forall|j: int|
                    0 <= j < accounts.len() ==> (#[trigger] accounts[j]).user_id != uid
                &&& r.label == account::import_label(run.cli.token_key)
            }
            &&& r == ImportView {
                existing: r.existing,
                label: r.label,
                result: r.result,
                stage: r.stage,
                ..run
            }
        }),
{
    user_info::law_nobody_has_no_name(run.info);
    account::law_user_id_finds_its_first_account(accounts, run.info.user_id);
}

/// The account that a whole import puts into the store, field by field: what the login, the report
/// and the store say, and for everything else the bare account.
pub proof fn law_imported_account_in_full(
    run: ImportView,
    bare: AccountView,
    updated: AccountView,
    start_url: Option<Seq<char>>,
    hash: Seq<char>,
    accounts: Seq<AccountView>,
)
    requires
        run.stage == ImportStage::Creating,
        run.existing matches Some(i) ==> 0 <= i < accounts.len(),
    ensures
        ({
            let created = cli_import::after_creation(run, bare);
            let settled = cli_import::after_status_update(created, updated);
            let resolved = cli_import::after_login_resolution(settled, start_url, Ok(hash));
            let (r, stored) = cli_import::after_commit(resolved, accounts);
            let social = run.cli.auth_method == "social"@;
            let kept = match run.existing {
                Some(i) => accounts[i].machine_id,
                None => None,
            };
            let has_machine_id = kept is Some && text::trimmed(kept->0) != Seq::<char>::empty();
            let done = AccountView {
                id: match run.existing {
                    Some(i) => accounts[i].id,
                    None => updated.id,
                },
                machine_id: if has_machine_id {
                    kept
                } else {
                    Some(run.machine_id)
                },
                auth_method: Some(
                    if social {
                        "social"@
                    } else {
                        "IdC"@
                    },
                ),
                profile_arn: if social {
                    run.cli.profile_arn
                } else {
                    updated.profile_arn
                },
                client_id: if social {
                    updated.client_id
                } else {
                    run.cli.client_id
                },
                client_secret: if social {
                    updated.client_secret
                } else {
                    run.cli.client_secret
                },
                client_id_hash: if social {
                    updated.client_id_hash
                } else {
                    Some(hash)
                },
                start_url: if social {
                    updated.start_url
                } else {
                    start_url
                },
                ..updated
            };
            &&& created.stage == ImportStage::UpdatingStatus
            &&& created.account == Some(
                AccountView {
                    access_token: Some(run.cli.access_token),
                    refresh_token: Some(run.cli.refresh_token),
                    expires_at: run.cli.expires_at,
                    provider: Some(run.provider),
                    user_id: run.info.user_id,
                    region: Some(run.cli.region),
                    usage_data: run.usage_data,
                    ..bare
                },
            )
            &&& settled.stage == if social {
                ImportStage::Committing
            } else {
                ImportStage::ResolvingLogin
            }
            &&& resolved.stage == ImportStage::Committing
            &&& stored == match run.existing {
                Some(i) => accounts.update(i, done),
                None => accounts.push(done),
            }
            &&& r.stage == ImportStage::Finished
            &&& r.result is Some
            &&& r.result->0.success
            &&& r.result->0.is_new <==> run.existing is None
            &&& r.result->0.account == Some(done)
            &&& r.result->0.error is None
        }),
{
    if run.existing is Some {
        let kept = accounts[run.existing->0].machine_id;
        if kept is Some && text::trimmed(kept->0).len() == 0 {
            assert(text::trimmed(kept->0) == Seq::<char>::empty());
        }
    }
}

/// A refused client id hash ends the import of a login with the reason.
pub proof fn law_refused_hash_is_told(
    run: ImportView,
    start_url: Option<Seq<char>>,
    message: Seq<char>,
)
    requires
        run.stage == ImportStage::ResolvingLogin,
    ensures
        failed_with(
            cli_import::after_login_resolution(run, start_url, Err(message)),
            "解析 clientIdHash 失败: "@ + message,
        ),
{
}

/// The stage that an event belongs to.
pub open spec fn stage_of(event: ImportEvent) -> ImportStage {
    match event {
        ImportEvent::Usage { .. } => ImportStage::AskingUsage,
        ImportEvent::UsageFailed { .. } => ImportStage::AskingUsage,
        ImportEvent::AccountService { .. } => ImportStage::AskingAccountService,
        ImportEvent::Store { .. } => ImportStage::LookingUp,
        ImportEvent::Created { .. } => ImportStage::Creating,
        ImportEvent::StatusUpdated { .. } => ImportStage::UpdatingStatus,
        ImportEvent::LoginResolved { .. } => ImportStage::ResolvingLogin,
        ImportEvent::Commit { .. } => ImportStage::Committing,
    }
}

/// An event that belongs to another stage leaves the import as it is.
pub proof fn law_misplaced_import_event_is_ignored(run: ImportView, event: ImportEvent)
    requires
        run.stage != stage_of(event),
    ensures
        after_import_event(run, event) == run,
{
}

// ---------------------------------------------------------------------------------------------
// What each step of a switch does
// ---------------------------------------------------------------------------------------------

/// The machine has a name of its own.
pub open spec fn has_machine_id(a: AccountView) -> bool {
    a.machine_id is Some && text::trimmed(a.machine_id->0) != Seq::<char>::empty()
}

proof fn lemma_has_machine_id(a: AccountView)
    ensures
        has_machine_id(a) <==> !text::is_unfilled(a.machine_id),
{
    if a.machine_id is Some && text::trimmed(a.machine_id->0).len() == 0 {
        assert(text::trimmed(a.machine_id->0) == Seq::<char>::empty());
    }
}

/// The stage that a switch is at when the tokens of this account are settled: a missing machine
/// id is found first, then a missing provider, then a missing access token.
pub open spec fn is_settled_stage(a: AccountView, stage: SwitchStage) -> bool {
    if !has_machine_id(a) {
        stage == SwitchStage::NamingMachine
    } else if a.provider is None {
        stage == SwitchStage::Failed(SwitchFailure::MissingProvider)
    } else if a.access_token is None {
        stage == SwitchStage::Failed(SwitchFailure::MissingAccessToken)
    } else {
        stage == SwitchStage::CheckingUsage
    }
}

/// A switch begins with the account as it is stored, and with a refresh exactly when the account
/// has a refresh token.
pub proof fn law_switch_begins_with_a_refresh(a: AccountView)
    ensures
        ({
            let run = cli_switch::new_switch(a);
            &&& run.account == a
            &&& a.refresh_token is Some ==> run.stage == SwitchStage::Refreshing
            &&& a.refresh_token is None ==> is_settled_stage(a, run.stage)
        }),
{
    lemma_has_machine_id(a);
}

/// After a refresh the account has exactly the access token, the refresh token and the expiry that
/// were issued, and is otherwise the account of before.
pub proof fn law_fresh_tokens_are_used(
    run: SwitchView,
    access_token: Seq<char>,
    refresh_token: Option<Seq<char>>,
    expires_at: Seq<char>,
)
    requires
        run.stage == SwitchStage::Refreshing,
    ensures
        ({
            let r = cli_switch::after_refresh(run, access_token, refresh_token, expires_at);
            &&& r.account.access_token == Some(access_token)
            &&& r.account.refresh_token == refresh_token
            &&& r.account.expires_at == Some(expires_at)
            &&& r.account == AccountView {
                access_token: r.account.access_token,
                refresh_token: r.account.refresh_token,
                expires_at: r.account.expires_at,
                ..run.account
            }
            &&& is_settled_stage(r.account, r.stage)
        }),
{
    lemma_has_machine_id(cli_switch::after_refresh(run, access_token, refresh_token, expires_at).account);
}

/// Once the tokens are settled, whatever happens, the account of a switch changes in nothing but
/// its machine id.
pub proof fn law_settled_tokens_stay(run: SwitchView, events: Seq<SwitchEvent>)
    requires
        run.stage != SwitchStage::Refreshing,
    ensures
        ({
            let r = after_switch_events(run, events);
            &&& r.stage != SwitchStage::Refreshing
            &&& r.account == AccountView { machine_id: r.account.machine_id, ..run.account }
            &&& run.stage != SwitchStage::NamingMachine ==> r.account == run.account && r.stage
                != SwitchStage::NamingMachine
        }),
    decreases events.len(),
{
    if events.len() > 0 {
        law_settled_tokens_stay(run, events.drop_last());
    }
}

/// Whatever happens after a refresh, the command line is switched with the tokens and the expiry
/// that were issued.
pub proof fn law_switch_ends_with_the_fresh_tokens(
    run: SwitchView,
    access_token: Seq<char>,
    refresh_token: Option<Seq<char>>,
    expires_at: Seq<char>,
    events: Seq<SwitchEvent>,
)
    requires
        run.stage == SwitchStage::Refreshing,
    ensures
        ({
            let refreshed = cli_switch::after_refresh(
                run,
                access_token,
                refresh_token,
                expires_at,
            );
            let r = after_switch_events(refreshed, events);
            &&& r.account.access_token == Some(access_token)
            &&& r.account.refresh_token == refresh_token
            &&& r.account.expires_at == Some(expires_at)
            &&& r.account.id == run.account.id
        }),
{
    law_fresh_tokens_are_used(run, access_token, refresh_token, expires_at);
    let refreshed = cli_switch::after_refresh(run, access_token, refresh_token, expires_at);
    law_settled_tokens_stay(refreshed, events);
}

/// A failed refresh leaves the account with the tokens at hand.
pub proof fn law_failed_refresh_keeps_the_tokens(run: SwitchView)
    requires
        run.stage == SwitchStage::Refreshing,
    ensures
        ({
            let r = cli_switch::after_refresh_failure(run);
            &&& r.account == run.account
            &&& is_settled_stage(run.account, r.stage)
        }),
{
    lemma_has_machine_id(run.account);
}

/// A new machine id goes into the account of the switch, and into the first stored account with
/// its id exactly where that has none of its own; a missing provider or access token is told next.
pub proof fn law_new_machine_id_is_stored_where_missing(
    run: SwitchView,
    accounts: Seq<AccountView>,
    machine_id: Seq<char>,
)
    requires
        run.stage == SwitchStage::NamingMachine,
    ensures
        ({
            let (r, stored) = cli_switch::after_machine_id(run, accounts, machine_id);
            let a = run.account;
            &&& r.account == AccountView { machine_id: Some(machine_id), ..a }
            &&& a.provider is None ==> r.stage == SwitchStage::Failed(
                SwitchFailure::MissingProvider,
            )
            &&& a.provider is Some && a.access_token is None ==> r.stage == SwitchStage::Failed(
                SwitchFailure::MissingAccessToken,
            )
            &&& a.provider is Some && a.access_token is Some ==> r.stage
                == SwitchStage::CheckingUsage
            &&& forall|i: int| #[trigger]
                account::is_first_with_id(accounts, a.id, i) ==> if has_machine_id(accounts[i]) {
                    &&& stored == accounts
                    &&& !cli_switch::stored_without_machine_id(run, accounts)
                } else {
                    &&& stored == accounts.update(
                        i,
                        AccountView { machine_id: Some(machine_id), ..accounts[i] },
                    )
                    &&& cli_switch::stored_without_machine_id(run, accounts)
                }
            &&& account::has_no_id(accounts, a.id) ==> stored == accounts
                && !cli_switch::stored_without_machine_id(run, accounts)
        }),
{
    account::law_first_position_is_unique(accounts, run.account.id);
    assert forall|i: int| #[trigger] account::is_first_with_id(
        accounts,
        run.account.id,
        i,
    ) implies has_machine_id(accounts[i]) == !text::is_unfilled(accounts[i].machine_id) by {
        lemma_has_machine_id(accounts[i]);
    }
}

/// The usage report goes into the first stored account with the id of the switch, and into nothing
/// else. The switch is stopped exactly when that account is there and banned.
pub proof fn law_only_a_ban_stops_a_checked_switch(
    run: SwitchView,
    accounts: Seq<AccountView>,
    usage_data: Seq<char>,
    is_banned: bool,
)
    requires
        run.stage == SwitchStage::CheckingUsage,
    ensures
        ({
            let (r, stored) = cli_switch::after_usage(run, accounts, usage_data, is_banned);
            &&& r.account == run.account
            &&& forall|i: int| #[trigger]
                account::is_first_with_id(accounts, run.account.id, i) ==> {
                    &&& stored == accounts.update(
                        i,
                        AccountView { usage_data: Some(usage_data), ..accounts[i] },
                    )
                    &&& is_banned ==> r.stage == SwitchStage::Failed(SwitchFailure::Banned)
                    &&& !is_banned ==> r.stage == SwitchStage::Ready
                }
            &&& account::has_no_id(accounts, run.account.id) ==> stored == accounts && r.stage
                == SwitchStage::Ready
        }),
{
    account::law_first_position_is_unique(accounts, run.account.id);
}

/// A missing usage report lets the switch go on with the account as it is.
pub proof fn law_switch_goes_on_without_a_report(run: SwitchView)
    requires
        run.stage == SwitchStage::CheckingUsage,
    ensures
        cli_switch::after_usage_failure(run) == (SwitchView {
            account: run.account,
            stage: SwitchStage::Ready,
        }),
{
}

/// An event that belongs to another stage leaves switch and store as they are.
pub proof fn law_misplaced_switch_event_is_ignored(
    run: SwitchView,
    event: SwitchEvent,
    accounts: Seq<AccountView>,
    text: Seq<char>,
    is_banned: bool,
)
    ensures
        run.stage != (match event {
            SwitchEvent::Refreshed { .. } => SwitchStage::Refreshing,
            SwitchEvent::RefreshFailed => SwitchStage::Refreshing,
            SwitchEvent::MachineId { .. } => SwitchStage::NamingMachine,
            SwitchEvent::Usage { .. } => SwitchStage::CheckingUsage,
            SwitchEvent::UsageFailed => SwitchStage::CheckingUsage,
        }) ==> after_switch_event(run, event) == run,
        run.stage != SwitchStage::NamingMachine ==> cli_switch::after_machine_id(
            run,
            accounts,
            text,
        ).1 == accounts,
        run.stage != SwitchStage::CheckingUsage ==> cli_switch::after_usage(
            run,
            accounts,
            text,
            is_banned,
        ).1 == accounts,
{
}

/// The message for an unknown account names the id that was asked for.
pub proof fn law_unknown_account_is_named(id: Seq<char>)
    ensures
        "账号不存在: "@.is_prefix_of(cli_switch::not_found(id)),
        id.is_suffix_of(cli_switch::not_found(id)),
        cli_switch::not_found(id).len() == "账号不存在: "@.len() + id.len(),
{
    let head = "账号不存在: "@;
    let message = cli_switch::not_found(id);
    assert(message.subrange(0, head.len() as int) == head);
    assert(message.subrange(head.len() as int, message.len() as int) == id);
}

// ---------------------------------------------------------------------------------------------
// What callers of the functions get
// ---------------------------------------------------------------------------------------------

/// The login of a database is selected exactly when it is the only one; with none, or with more
/// than one, the caller is told which.
pub proof fn law_only_login_is_selected(
    logins: Vec<KiroCliAccount>,
    r: Result<KiroCliAccount, ImportError>,
)
    requires
        call_ensures(cli_import::select_cli_account, (logins,), r),
    ensures
        r is Ok <==> logins@.len() == 1,
        r matches Ok(login) ==> logins@ == seq![login],
        logins@.len() == 0 ==> r == Err::<KiroCliAccount, ImportError>(ImportError::NoLogin),
        logins@.len() >= 2 ==> r == Err::<KiroCliAccount, ImportError>(ImportError::ManyLogins),
{
    if r is Ok {
        assert(logins@ =~= seq![r->Ok_0]);
    }
}

/// The start URL that a login brings is used as it is, its client secret only where it brings
/// none, and with neither there is none. What is judged is the trimmed URL.
pub proof fn law_start_url_of_the_login_comes_first(
    cli: KiroCliAccount,
    source: StartUrlSource,
    judged: Option<&str>,
)
    requires
        call_ensures(cli_import::start_url_source, (&cli,), source),
        call_ensures(cli_import::start_url_to_judge, (&cli,), judged),
    ensures
        ({
            let url = cli.start_url;
            let brings = url is Some && text::trimmed(url->0@) != Seq::<char>::empty();
            &&& brings ==> source is Login && source->Login_0@ == url->0@ && judged is Some
                && judged->0@ == text::trimmed(url->0@)
            &&& !brings ==> judged is None
            &&& !brings && cli.client_secret is Some ==> source is Secret && source->Secret_0@
                == cli.client_secret->0@
            &&& !brings && cli.client_secret is None ==> source is Missing
        }),
{
    if cli.start_url is Some && text::trimmed(cli.start_url->0@).len() == 0 {
        assert(text::trimmed(cli.start_url->0@) == Seq::<char>::empty());
    }
}

/// A bare account is created for the e-mail address wherever there is one, for the user id only
/// where there is none, and for nobody when neither is known.
pub proof fn law_email_names_the_account_first(run: ImportRun, r: Option<AccountSeed>)
    requires
        call_ensures(ImportRun::seed, (&run,), r),
    ensures
        run.info.email matches Some(email) ==> r is Some && r->0 is Email && r->0->Email_0@
            == email@,
        run.info.email is None && run.info.user_id is Some ==> r is Some && r->0 is UserId
            && r->0->UserId_0@ == run.info.user_id->0@,
        run.info.email is None && run.info.user_id is None ==> r is None,
{
}

/// The provider, the machine id and the existing account that an import finds are what the laws
/// of logins and stores say of the records themselves.
pub proof fn law_import_asks_the_records(
    cli: KiroCliAccount,
    builder_id_url: bool,
    provider: String,
    accounts: Vec<Account>,
    token: &str,
    machine_id: Option<String>,
)
    requires
        call_ensures(cli_import::determine_provider, (&cli, builder_id_url), provider),
        call_ensures(cli_import::reusable_machine_id, (&accounts, token), machine_id),
    ensures
        provider@ == cli_import::provider_of(cli@, builder_id_url),
        machine_id matches Some(id) ==> exists|i: int|
            {
                &&& 0 <= i < accounts@.len()
                &&& (#[trigger] accounts@[i]).refresh_token is Some
                &&& accounts@[i].refresh_token->0@ == token@
                &&& accounts@[i].machine_id is Some
                &&& accounts@[i].machine_id->0@ == id@
            },
{
    if machine_id is Some {
        let seen = account::accounts_view(accounts@);
        account::lemma_first_where(seen, cli_import::with_refresh_token(token@));
        let i = account::first_where(seen, cli_import::with_refresh_token(token@))->0;
        assert(seen[i] == accounts@[i]@);
    }
}

/// A switch begins only with an account that the store has under the id that was asked for, the
/// first one, and begins with all of it.
pub proof fn law_switch_is_to_the_account_asked_for(
    accounts: Vec<Account>,
    id: &str,
    r: Result<SwitchRun, String>,
)
    requires
        call_ensures(SwitchRun::new, (&accounts, id), r),
    ensures
        r is Err <==> account::has_no_id(account::accounts_view(accounts@), id@),
        r matches Ok(run) ==> exists|i: int|
            {
                &&& #[trigger] account::is_first_with_id(
                    account::accounts_view(accounts@),
                    id@,
                    i,
                )
                &&& run.account@ == accounts@[i]@
            },
        r matches Err(message) ==> id@.is_suffix_of(message@),
{
    let seen = account::accounts_view(accounts@);
    account::law_first_position_is_unique(seen, id@);
    law_unknown_account_is_named(id@);
    match account::position_of_id(seen, id@) {
        Some(i) => {
            assert(account::is_first_with_id(seen, id@, i));
            law_switch_begins_with_a_refresh(seen[i]);
        },
        None => {},
    }
}

} // verus!
