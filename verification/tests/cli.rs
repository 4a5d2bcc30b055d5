use base64::engine::general_purpose::URL_SAFE_NO_PAD;
use base64::Engine;
use kiro_accounts::account::{Account, KiroCliAccount};
use kiro_accounts::cli_import::{
    determine_provider, reusable_machine_id, select_cli_account, start_url_source,
    start_url_to_judge, AccountSeed, ImportError, ImportRun, ImportStage, StartUrlSource,
    UsageReport,
};
use kiro_accounts::cli_paths::{
    default_path_candidates, expand_home_dir, get_kiro_cli_default_path, home_dir,
    logout_without_database, CheckedPath, HostSystem, PathError,
};
use kiro_accounts::cli_switch::{SwitchFailure, SwitchRun, SwitchStage};
use kiro_accounts::expiry::Instant;
use kiro_accounts::user_info::UserInfo;

fn bare(id: &str) -> Account {
    Account {
        id: id.to_string(),
        email: None,
        user_id: None,
        label: "t".to_string(),
        status: "active".to_string(),
        enabled: true,
        provider: None,
        auth_method: None,
        access_token: None,
        refresh_token: None,
        expires_at: None,
        client_id: None,
        client_secret: None,
        client_id_hash: None,
        start_url: None,
        region: None,
        profile_arn: None,
        machine_id: None,
        usage_data: None,
    }
}

fn some(s: &str) -> Option<String> {
    Some(s.to_string())
}

fn login(auth_method: &str) -> KiroCliAccount {
    KiroCliAccount {
        token_key: "key".to_string(),
        auth_method: auth_method.to_string(),
        access_token: "at".to_string(),
        refresh_token: "rt".to_string(),
        expires_at: some("2026/07/20 10:02:25"),
        region: "us-east-1".to_string(),
        profile_arn: some("arn:google"),
        start_url: some("https://d-1.awsapps.com/start"),
        client_id: some("ci"),
        client_secret: some("cs"),
    }
}

fn report(email: Option<&str>, user_id: Option<&str>) -> UsageReport {
    UsageReport {
        info: UserInfo {
            email: email.map(|s| s.to_string()),
            user_id: user_id.map(|s| s.to_string()),
        },
        usage_data: "{}".to_string(),
        is_banned: false,
        is_auth_error: false,
    }
}

fn error_of(run: &ImportRun) -> &str {
    let result = run.result.as_ref().unwrap();
    assert_eq!(run.stage, ImportStage::Finished);
    assert!(!result.success && !result.is_new && result.account.is_none());
    result.error.as_deref().unwrap()
}

#[test]
fn database_has_to_hold_one_login() {
    assert_eq!(select_cli_account(Vec::new()), Err(ImportError::NoLogin));
    assert_eq!(
        select_cli_account(vec![login("social"), login("idc")]),
        Err(ImportError::ManyLogins)
    );
    assert_eq!(select_cli_account(vec![login("social")]), Ok(login("social")));
    assert_eq!(ImportError::NoLogin.message(), "数据库中没有账号数据");
    assert_eq!(ImportError::ManyLogins.message(), "数据库中有多个账号，请联系开发者");
}

#[test]
fn provider_of_a_social_login() {
    let mut cli = login("social");
    assert_eq!(determine_provider(&cli, false), "Google");
    cli.profile_arn = some("arn:aws:github/x");
    assert_eq!(determine_provider(&cli, false), "Github");
    cli.profile_arn = some("arn:google:github");
    assert_eq!(determine_provider(&cli, true), "Google");
    cli.profile_arn = some("arn:Google");
    assert_eq!(determine_provider(&cli, false), "Unknown");
    cli.profile_arn = None;
    assert_eq!(determine_provider(&cli, false), "Unknown");
}

#[test]
fn provider_of_any_other_login() {
    let mut cli = login("idc");
    assert_eq!(determine_provider(&cli, false), "Enterprise");
    assert_eq!(determine_provider(&cli, true), "BuilderId");
    cli.start_url = some("  ");
    assert_eq!(determine_provider(&cli, false), "BuilderId");
    cli.start_url = None;
    assert_eq!(determine_provider(&cli, false), "BuilderId");
}

#[test]
fn start_url_is_judged_without_white_space() {
    let mut cli = login("idc");
    cli.start_url = some(" https://d-1.awsapps.com/start\n");
    assert_eq!(start_url_to_judge(&cli), Some("https://d-1.awsapps.com/start"));
    cli.start_url = some("\t");
    assert_eq!(start_url_to_judge(&cli), None);
    cli.start_url = None;
    assert_eq!(start_url_to_judge(&cli), None);
}

#[test]
fn machine_id_of_the_same_token_is_reused() {
    let mut blank = bare("a");
    blank.refresh_token = some("rt-1");
    blank.machine_id = some(" ");
    let mut named = bare("b");
    named.refresh_token = some("rt-2");
    named.machine_id = some(" m ");
    let mut later = bare("c");
    later.refresh_token = some("rt-1");
    later.machine_id = some("n");
    let accounts = vec![bare("z"), blank, named, later];
    assert_eq!(reusable_machine_id(&accounts, "rt-2"), some(" m "));
    // Only the first account with the token counts.
    assert_eq!(reusable_machine_id(&accounts, "rt-1"), None);
    assert_eq!(reusable_machine_id(&accounts, "rt-3"), None);
}

#[test]
fn start_url_comes_from_the_login_or_its_secret() {
    let mut cli = login("idc");
    assert_eq!(
        start_url_source(&cli),
        StartUrlSource::Login("https://d-1.awsapps.com/start".to_string())
    );
    cli.start_url = some(" ");
    assert_eq!(start_url_source(&cli), StartUrlSource::Secret("cs".to_string()));
    cli.start_url = None;
    cli.client_secret = None;
    assert_eq!(start_url_source(&cli), StartUrlSource::Missing);
}

#[test]
fn social_login_is_imported_as_a_new_account() {
    let mut accounts = vec![bare("z")];
    let mut run = ImportRun::new(login("social"), false, "machine".to_string());
    assert_eq!(run.provider, "Google");
    run.on_usage(report(Some("a@b.c"), Some("u")));
    assert_eq!(run.stage, ImportStage::LookingUp);
    run.on_store(&accounts);
    assert_eq!(run.stage, ImportStage::Creating);
    assert_eq!(run.seed(), Some(AccountSeed::Email("a@b.c".to_string())));
    assert_eq!(run.label, "从 kiro-cli 导入 (key)");
    let mut created = bare("new");
    created.email = some("a@b.c");
    created.label = run.label.clone();
    run.on_created(created);
    let mut account = run.account.clone().unwrap();
    account.status = "updated".to_string();
    run.on_status_updated(account);
    assert_eq!(run.stage, ImportStage::Committing);
    assert!(run.commit(&mut accounts));

    assert_eq!(accounts.len(), 2);
    let stored = &accounts[1];
    assert_eq!(stored.id, "new");
    assert_eq!(stored.label, "从 kiro-cli 导入 (key)");
    assert_eq!(stored.email, some("a@b.c"));
    assert_eq!(stored.user_id, some("u"));
    assert_eq!(stored.status, "updated");
    assert_eq!(stored.access_token, some("at"));
    assert_eq!(stored.refresh_token, some("rt"));
    assert_eq!(stored.expires_at, some("2026/07/20 10:02:25"));
    assert_eq!(stored.provider, some("Google"));
    assert_eq!(stored.region, some("us-east-1"));
    assert_eq!(stored.auth_method, some("social"));
    assert_eq!(stored.profile_arn, some("arn:google"));
    assert_eq!(stored.client_id, None);
    assert_eq!(stored.usage_data, some("{}"));
    assert_eq!(stored.machine_id, some("machine"));
    let result = run.result.as_ref().unwrap();
    assert!(result.success && result.is_new && result.error.is_none());
    assert_eq!(result.account.as_ref(), Some(stored));
    // A second write does nothing.
    assert!(!run.commit(&mut accounts));
    assert_eq!(accounts.len(), 2);
}

#[test]
fn company_login_replaces_the_stored_account() {
    let mut stored = bare("old");
    stored.user_id = some("u");
    stored.label = "mine".to_string();
    stored.machine_id = some("kept");
    let mut accounts = vec![bare("z"), stored];
    let mut run = ImportRun::new(login("idc"), false, "machine".to_string());
    assert_eq!(run.provider, "Enterprise");
    run.on_usage(report(None, Some("u")));
    run.on_store(&accounts);
    assert_eq!(run.seed(), Some(AccountSeed::UserId("u".to_string())));
    assert_eq!(run.label, "mine");
    let mut created = bare("new");
    created.label = run.label.clone();
    run.on_created(created);
    let account = run.account.clone().unwrap();
    run.on_status_updated(account);
    assert_eq!(run.stage, ImportStage::ResolvingLogin);
    run.on_login_resolved(some("https://d-1.awsapps.com/start"), Ok("hash".to_string()));
    assert_eq!(run.stage, ImportStage::Committing);
    assert!(run.commit(&mut accounts));

    assert_eq!(accounts.len(), 2);
    assert_eq!(accounts[0], bare("z"));
    assert_eq!(accounts[1].id, "old");
    assert_eq!(accounts[1].label, "mine");
    assert_eq!(accounts[1].machine_id, some("kept"));
    assert_eq!(accounts[1].auth_method, some("IdC"));
    assert_eq!(accounts[1].client_id, some("ci"));
    assert_eq!(accounts[1].client_secret, some("cs"));
    assert_eq!(accounts[1].client_id_hash, some("hash"));
    assert_eq!(accounts[1].start_url, some("https://d-1.awsapps.com/start"));
    assert_eq!(accounts[1].profile_arn, None);
    let result = run.result.as_ref().unwrap();
    assert!(result.success && !result.is_new);
}

#[test]
fn stored_account_without_machine_id_gets_one() {
    let mut stored = bare("old");
    stored.user_id = some("u");
    stored.machine_id = some(" ");
    let mut accounts = vec![stored];
    let mut run = ImportRun::new(login("social"), false, "machine".to_string());
    run.on_usage(report(None, Some("u")));
    run.on_store(&accounts);
    run.on_created(bare("new"));
    let account = run.account.clone().unwrap();
    run.on_status_updated(account);
    run.commit(&mut accounts);
    assert_eq!(accounts[0].machine_id, some("machine"));
}

#[test]
fn company_login_is_identified_step_by_step() {
    let mut cli = login("idc");
    let json = r#"{"email":"a@b.cd"}"#;
    cli.client_secret = Some(format!("h.{}.s", URL_SAFE_NO_PAD.encode(json)));
    let mut run = ImportRun::new(cli, false, "m".to_string());
    run.on_usage(report(None, None));
    assert_eq!(run.stage, ImportStage::LookingUp);
    assert_eq!(run.info.email, some("a@b.cd"));

    let mut run = ImportRun::new(login("idc"), false, "m".to_string());
    run.on_usage(report(None, None));
    assert_eq!(run.stage, ImportStage::AskingAccountService);
    run.on_account_service(UserInfo { email: None, user_id: some("u") });
    assert_eq!(run.stage, ImportStage::LookingUp);
    assert_eq!(run.seed(), Some(AccountSeed::UserId("u".to_string())));

    // Others than companies are not asked about any further.
    let mut run = ImportRun::new(login("idc"), true, "m".to_string());
    run.on_usage(report(None, None));
    assert_eq!(run.stage, ImportStage::LookingUp);
}

#[test]
fn failed_import_says_why() {
    let mut accounts = vec![bare("z")];
    let mut run = ImportRun::new(login("social"), false, "m".to_string());
    run.on_usage_failed("offline");
    assert_eq!(error_of(&run), "获取账号信息失败: offline");

    let mut run = ImportRun::new(login("social"), false, "m".to_string());
    run.on_usage(report(None, None));
    run.on_store(&accounts);
    assert_eq!(error_of(&run), "无法获取账号标识（email 或 userId）");

    let mut run = ImportRun::new(login("idc"), false, "m".to_string());
    run.on_usage(report(Some("a@b.c"), None));
    run.on_store(&accounts);
    run.on_created(bare("new"));
    let account = run.account.clone().unwrap();
    run.on_status_updated(account);
    run.on_login_resolved(None, Err("no url".to_string()));
    assert_eq!(error_of(&run), "解析 clientIdHash 失败: no url");
    assert!(!run.commit(&mut accounts));
    assert_eq!(accounts, vec![bare("z")]);
}

#[test]
fn home_directory_replaces_the_tilde() {
    assert_eq!(expand_home_dir("~/d/x~", some("/home/u"), None), Ok("/home/u/d/x~".to_string()));
    assert_eq!(expand_home_dir("~", None, some("C:\\u")), Ok("C:\\u".to_string()));
    assert_eq!(expand_home_dir("~x", some("/h"), some("/p")), Ok("/hx".to_string()));
    assert_eq!(expand_home_dir("/a/~", None, None), Ok("/a/~".to_string()));
    assert_eq!(expand_home_dir("", None, None), Ok(String::new()));
    assert_eq!(expand_home_dir("~/d", None, None), Err(PathError::NoHomeDirectory));
    assert_eq!(home_dir(None, None), Err(PathError::NoHomeDirectory));
    assert_eq!(PathError::NoHomeDirectory.message(), "无法获取用户主目录");
}

#[test]
fn database_is_looked_for_by_system() {
    assert_eq!(
        default_path_candidates(HostSystem::MacOs, "/h", Some("l"), Some("x")),
        vec![vec!["/h", "Library", "Application Support", "kiro-cli", "data.sqlite3"]]
    );
    assert_eq!(
        default_path_candidates(HostSystem::Windows, "/h", Some("l"), Some("x")),
        vec![vec!["l", "Kiro-Cli", "data.sqlite3"]]
    );
    assert!(default_path_candidates(HostSystem::Windows, "/h", None, None).is_empty());
    assert_eq!(
        default_path_candidates(HostSystem::Other, "/h", None, Some("x")),
        vec![
            vec!["x", "kiro-cli", "data.sqlite3"],
            vec!["/h", ".local", "share", "kiro-cli", "data.sqlite3"]
        ]
    );
    assert_eq!(
        default_path_candidates(HostSystem::Other, "/h", Some("l"), None),
        vec![vec!["/h", ".local", "share", "kiro-cli", "data.sqlite3"]]
    );
}

#[test]
fn first_existing_database_is_the_default() {
    let checked = |path: &str, exists: bool| CheckedPath { path: path.to_string(), exists };
    let list = vec![checked("a", false), checked("b", true), checked("c", true)];
    assert_eq!(get_kiro_cli_default_path(&list), "b");
    assert_eq!(get_kiro_cli_default_path(&vec![checked("a", false)]), "");
    assert_eq!(get_kiro_cli_default_path(&Vec::new()), "");
}

#[test]
fn logout_without_a_database_clears_nothing() {
    assert_eq!(logout_without_database(false), Some(0));
    assert_eq!(logout_without_database(true), None);
}

fn complete(id: &str) -> Account {
    let mut a = bare(id);
    a.provider = some("Google");
    a.access_token = some("at");
    a.refresh_token = some("rt");
    a.machine_id = some("m");
    a
}

#[test]
fn switch_uses_fresh_tokens() {
    let mut accounts = vec![complete("z"), complete("a")];
    let mut run = SwitchRun::new(&accounts, "a").unwrap();
    assert_eq!(run.stage, SwitchStage::Refreshing);
    run.on_refreshed_at("at-2".to_string(), None, 3600, Instant { secs: 1_784_541_745, nanos: 0 });
    assert_eq!(run.stage, SwitchStage::CheckingUsage);
    assert_eq!(run.account.access_token, some("at-2"));
    assert_eq!(run.account.refresh_token, None);
    assert_eq!(run.account.expires_at, some("2026-07-20T11:02:25+00:00"));
    assert_eq!(run.on_usage(&mut accounts, "{}".to_string(), false), Some(1));
    assert_eq!(run.stage, SwitchStage::Ready);
    assert_eq!(accounts[1].usage_data, some("{}"));
    assert_eq!(accounts[1].access_token, some("at"));
    assert_eq!(accounts[0], complete("z"));
}

#[test]
fn switch_reads_the_clock() {
    let accounts = vec![complete("a")];
    let mut run = SwitchRun::new(&accounts, "a").unwrap();
    assert!(!run.on_refreshed("at-2".to_string(), None, i64::MAX));
    assert_eq!(run.stage, SwitchStage::Refreshing);
    assert_eq!(run.account, complete("a"));
    assert!(run.on_refreshed("at-2".to_string(), some("rt-2"), 60));
    assert_eq!(run.stage, SwitchStage::CheckingUsage);
    assert_eq!(run.account.refresh_token, some("rt-2"));
    let expires = chrono::DateTime::parse_from_rfc3339(run.account.expires_at.as_ref().unwrap());
    let ahead = expires.unwrap().timestamp() - chrono::Utc::now().timestamp();
    assert!((50..=60).contains(&ahead));
}

#[test]
fn switch_goes_on_without_replies() {
    let accounts = vec![complete("a")];
    let mut run = SwitchRun::new(&accounts, "a").unwrap();
    run.on_refresh_failed();
    assert_eq!(run.stage, SwitchStage::CheckingUsage);
    run.on_usage_failed();
    assert_eq!(run.stage, SwitchStage::Ready);
    assert_eq!(run.account, complete("a"));
}

#[test]
fn switch_names_the_machine() {
    let mut nameless = complete("a");
    nameless.machine_id = some(" ");
    nameless.refresh_token = None;
    let mut accounts = vec![nameless];
    let mut run = SwitchRun::new(&accounts, "a").unwrap();
    assert_eq!(run.stage, SwitchStage::NamingMachine);
    assert!(run.on_machine_id(&mut accounts, "new".to_string()));
    assert_eq!(run.stage, SwitchStage::CheckingUsage);
    assert_eq!(run.account.machine_id, some("new"));
    assert_eq!(accounts[0].machine_id, some("new"));

    // A name that the store has got meanwhile stays.
    accounts[0].machine_id = None;
    let mut run = SwitchRun::new(&accounts, "a").unwrap();
    accounts[0].machine_id = some("other");
    assert!(!run.on_machine_id(&mut accounts, "new".to_string()));
    assert_eq!(run.account.machine_id, some("new"));
    assert_eq!(accounts[0].machine_id, some("other"));
}

#[test]
fn switch_can_fail() {
    let mut accounts = vec![complete("a")];
    match SwitchRun::new(&accounts, "x") {
        Ok(_) => panic!("there is no such account"),
        Err(message) => assert_eq!(message, "账号不存在: x"),
    }

    accounts[0].provider = None;
    let mut run = SwitchRun::new(&accounts, "a").unwrap();
    run.on_refresh_failed();
    assert_eq!(run.stage, SwitchStage::Failed(SwitchFailure::MissingProvider));

    accounts[0] = complete("a");
    accounts[0].refresh_token = None;
    accounts[0].access_token = None;
    let run = SwitchRun::new(&accounts, "a").unwrap();
    assert_eq!(run.stage, SwitchStage::Failed(SwitchFailure::MissingAccessToken));

    accounts[0] = complete("a");
    let mut run = SwitchRun::new(&accounts, "a").unwrap();
    run.on_refresh_failed();
    assert_eq!(run.on_usage(&mut accounts, "{}".to_string(), true), Some(0));
    assert_eq!(run.stage, SwitchStage::Failed(SwitchFailure::Banned));

    // A ban of an account that is gone from the store goes unnoticed.
    let mut run = SwitchRun::new(&accounts, "a").unwrap();
    run.on_refresh_failed();
    assert_eq!(run.on_usage(&mut Vec::new(), "{}".to_string(), true), None);
    assert_eq!(run.stage, SwitchStage::Ready);

    assert_eq!(SwitchFailure::MissingProvider.message(), "账号缺少 provider 字段");
    assert_eq!(SwitchFailure::MissingAccessToken.message(), "账号缺少 access_token");
    assert_eq!(SwitchFailure::Banned.message(), "账号已被封禁，无法切换到 CLI");
}
