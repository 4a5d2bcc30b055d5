use kiro_accounts::account::{Account, KiroLocalToken};
use kiro_accounts::refresh_pass::RefreshPass;
use kiro_accounts::refresh_run::{RefreshRun, RefreshStage, StoreWork};
use kiro_accounts::refresh_service::{now_unix, unix_seconds, TokenRefreshService};

fn bare(id: &str) -> Account {
    Account {
        id: id.to_string(),
        email: None,
        user_id: None,
        label: "t".to_string(),
        status: "active".to_string(),
        enabled: true,
        provider: None,
        auth_method: None,
        access_token: None,
        refresh_token: None,
        expires_at: None,
        client_id: None,
        client_secret: None,
        client_id_hash: None,
        start_url: None,
        region: None,
        profile_arn: None,
        machine_id: None,
        usage_data: None,
    }
}

fn account(id: &str, rt: &str) -> Account {
    let mut a = bare(id);
    a.refresh_token = Some(rt.to_string());
    a.access_token = Some(format!("at-{id}"));
    a.expires_at = Some("2026/07/20 10:02:25".to_string());
    a
}

fn login(rt: &str, at: &str) -> KiroLocalToken {
    KiroLocalToken {
        access_token: Some(at.to_string()),
        refresh_token: Some(rt.to_string()),
        expires_at: None,
        auth_method: None,
        provider: None,
        profile_arn: None,
        client_id_hash: None,
        region: None,
    }
}

/// A run for the first of these accounts whose tokens were refused, with no help from the IDE.
fn refused(service: &mut TokenRefreshService, accounts: &mut Vec<Account>, expired: bool) -> RefreshRun {
    let mut run = RefreshRun::new(&accounts[0]);
    run.on_refresh_failed("invalid_grant", true);
    assert_eq!(run.stage, RefreshStage::Checking);
    assert_eq!(run.on_store(service, accounts), StoreWork::Nothing);
    assert_eq!(run.stage, RefreshStage::ReadingIde);
    run.on_ide_token(None, None);
    assert_eq!(run.stage, RefreshStage::Judging);
    run.on_expiry_checked(service, expired);
    run
}

#[test]
fn account_is_held_by_one_refresh() {
    let mut service = TokenRefreshService::new();
    assert!(service.try_acquire("a"));
    assert!(!service.try_acquire("a"));
    assert!(service.try_acquire("b"));
    service.release("a");
    assert!(service.try_acquire("a"));
    assert!(!service.try_acquire("b"));
}

#[test]
fn strikes_count_until_cleared() {
    let mut service = TokenRefreshService::new();
    assert_eq!(service.bump_strikes("a"), (1, false));
    assert_eq!(service.bump_strikes("a"), (2, false));
    assert_eq!(service.bump_strikes("b"), (1, false));
    assert_eq!(service.bump_strikes("a"), (3, true));
    assert_eq!(service.bump_strikes("a"), (4, true));
    service.clear_strikes("a");
    assert_eq!(service.bump_strikes("a"), (1, false));
    assert_eq!(service.bump_strikes("b"), (2, false));
}

#[test]
fn success_starts_the_cooldown() {
    let mut service = TokenRefreshService::new();
    assert!(!service.in_cooldown("a"));
    service.mark_success_at("a", 1000);
    assert!(service.in_cooldown_at("a", 2799));
    assert!(!service.in_cooldown_at("a", 2800));
    assert!(!service.in_cooldown_at("b", 1000));
    assert!(!service.in_cooldown("a"));
    service.mark_success_cooldown("a");
    assert!(service.in_cooldown("a"));
}

#[test]
fn clock_shows_unix_time() {
    assert_eq!(unix_seconds(Some(7)), 7);
    assert_eq!(unix_seconds(None), 0);
    let now = now_unix();
    let other = chrono::Utc::now().timestamp() as u64;
    assert!(other >= now && other - now < 10);
}

#[test]
fn fresh_tokens_are_stored() {
    let mut service = TokenRefreshService::new();
    service.bump_strikes("a");
    let mut accounts = vec![account("z", "rt-z"), account("a", "rt")];
    let mut run = RefreshRun::new(&accounts[1]);
    assert_eq!(run.stage, RefreshStage::Requesting);
    run.on_refreshed();
    assert_eq!(run.stage, RefreshStage::Storing);
    assert_eq!(run.on_store(&mut service, &mut accounts), StoreWork::ApplyTokens(1));
    run.on_saved(&mut service, true, 5000);
    assert_eq!(run.stage, RefreshStage::Syncing);
    run.on_ide_synced();
    assert_eq!(run.stage, RefreshStage::Finished(true));
    assert!(run.changed_store());
    assert_eq!(service.bump_strikes("a"), (1, false));
    assert!(service.in_cooldown_at("a", 5001));
}

#[test]
fn fresh_tokens_that_cannot_be_saved_change_nothing() {
    let mut service = TokenRefreshService::new();
    service.bump_strikes("a");
    let mut accounts = vec![account("a", "rt")];
    let mut run = RefreshRun::new(&accounts[0]);
    run.on_refreshed();
    run.on_store(&mut service, &mut accounts);
    run.on_saved(&mut service, false, 5000);
    assert_eq!(run.stage, RefreshStage::Finished(false));
    assert!(!run.changed_store());
    assert_eq!(service.bump_strikes("a"), (2, false));
    assert!(!service.in_cooldown_at("a", 5001));
}

#[test]
fn stale_tokens_are_dropped() {
    let mut service = TokenRefreshService::new();
    let mut run = RefreshRun::new(&account("a", "rt"));
    run.on_refreshed();
    let mut accounts = vec![account("a", "rt-newer")];
    assert_eq!(run.on_store(&mut service, &mut accounts), StoreWork::Nothing);
    assert_eq!(run.stage, RefreshStage::Finished(false));
    assert_eq!(accounts, vec![account("a", "rt-newer")]);

    let mut run = RefreshRun::new(&account("a", "rt"));
    run.on_refreshed();
    assert_eq!(run.on_store(&mut service, &mut Vec::new()), StoreWork::Nothing);
    assert_eq!(run.stage, RefreshStage::Finished(false));
}

#[test]
fn only_refused_tokens_are_followed_up() {
    let a = account("a", "rt");
    let mut run = RefreshRun::new(&a);
    run.on_refresh_failed("timeout", false);
    assert_eq!(run.stage, RefreshStage::Finished(false));
    let mut run = RefreshRun::new(&a);
    run.on_refresh_failed("UPSTREAM_BLOCKED: 401", true);
    assert_eq!(run.stage, RefreshStage::Finished(false));
    let mut run = RefreshRun::new(&a);
    run.on_refresh_failed("not UPSTREAM_BLOCKED:", true);
    assert_eq!(run.stage, RefreshStage::Checking);
}

#[test]
fn third_refusal_disables_the_account() {
    let mut service = TokenRefreshService::new();
    let mut accounts = vec![account("a", "rt"), account("b", "rt-b")];
    for _ in 0..2 {
        let run = refused(&mut service, &mut accounts, true);
        assert_eq!(run.stage, RefreshStage::Finished(false));
        assert!(!run.changed_store());
        assert!(accounts[0].enabled);
    }
    let mut run = refused(&mut service, &mut accounts, true);
    assert_eq!(run.stage, RefreshStage::Disabling);
    assert_eq!(run.on_store(&mut service, &mut accounts), StoreWork::Save);
    assert_eq!(run.stage, RefreshStage::Finished(true));
    assert!(run.changed_store());
    assert_eq!(accounts[0].status, "invalid");
    assert!(!accounts[0].enabled);
    assert_eq!(accounts[0].refresh_token.as_deref(), Some("rt"));
    assert_eq!(accounts[1], account("b", "rt-b"));
}

#[test]
fn refusal_of_an_unexpired_token_is_no_strike() {
    let mut service = TokenRefreshService::new();
    let mut accounts = vec![account("a", "rt")];
    for _ in 0..5 {
        let run = refused(&mut service, &mut accounts, false);
        assert_eq!(run.stage, RefreshStage::Finished(false));
    }
    assert_eq!(service.bump_strikes("a"), (1, false));
}

#[test]
fn replaced_tokens_are_not_punished() {
    let mut service = TokenRefreshService::new();
    service.bump_strikes("a");
    service.bump_strikes("a");
    let mut accounts = vec![account("a", "rt")];
    let mut run = refused(&mut service, &mut accounts, true);
    assert_eq!(run.stage, RefreshStage::Disabling);
    accounts[0].refresh_token = Some("rt-newer".to_string());
    assert_eq!(run.on_store(&mut service, &mut accounts), StoreWork::Nothing);
    assert_eq!(run.stage, RefreshStage::Finished(false));
    assert!(accounts[0].enabled);
    assert_eq!(service.bump_strikes("a"), (1, false));

    // The same already when the refusal arrives.
    let mut run = RefreshRun::new(&account("a", "rt"));
    run.on_refresh_failed("invalid_grant", true);
    assert_eq!(run.on_store(&mut service, &mut accounts), StoreWork::Nothing);
    assert_eq!(run.stage, RefreshStage::Finished(false));
    assert_eq!(service.bump_strikes("a"), (1, false));
}

#[test]
fn tokens_are_rescued_from_the_ide() {
    let mut service = TokenRefreshService::new();
    let mut accounts = vec![account("a", "rt")];
    let mut run = RefreshRun::new(&accounts[0]);
    run.on_refresh_failed("invalid_grant", true);
    run.on_store(&mut service, &mut accounts);
    run.on_ide_token(Some(login("rt-ide", "at-a")), None);
    assert_eq!(run.stage, RefreshStage::Rescuing);
    assert_eq!(run.on_store(&mut service, &mut accounts), StoreWork::Save);
    assert_eq!(run.stage, RefreshStage::Retrying);
    assert_eq!(accounts[0].refresh_token.as_deref(), Some("rt-ide"));
    assert_eq!(run.target, accounts[0]);
    // Rescued tokens are stored though they are not those of the beginning.
    run.on_refreshed();
    assert_eq!(run.on_store(&mut service, &mut accounts), StoreWork::ApplyTokens(0));
    run.on_saved(&mut service, true, 9);
    run.on_ide_synced();
    assert_eq!(run.stage, RefreshStage::Finished(true));
}

#[test]
fn rescued_tokens_are_tried_once() {
    let mut service = TokenRefreshService::new();
    service.bump_strikes("a");
    service.bump_strikes("a");
    let mut accounts = vec![account("a", "rt")];
    let mut run = RefreshRun::new(&accounts[0]);
    run.on_refresh_failed("invalid_grant", true);
    run.on_store(&mut service, &mut accounts);
    run.on_ide_token(Some(login("rt-ide", "at-a")), None);
    run.on_store(&mut service, &mut accounts);
    run.on_refresh_failed("UPSTREAM_BLOCKED:", false);
    assert_eq!(run.stage, RefreshStage::Judging);
    run.on_expiry_checked(&mut service, true);
    assert_eq!(run.stage, RefreshStage::Disabling);
    // The rescued tokens do not count as replaced.
    assert_eq!(run.on_store(&mut service, &mut accounts), StoreWork::Save);
    assert_eq!(run.stage, RefreshStage::Finished(true));
    assert_eq!(accounts[0].status, "invalid");
}

/// A run for the first of these accounts that rescued tokens from the IDE.
fn rescued(service: &mut TokenRefreshService, accounts: &mut Vec<Account>) -> RefreshRun {
    let mut run = RefreshRun::new(&accounts[0]);
    run.on_refresh_failed("invalid_grant", true);
    run.on_store(service, accounts);
    run.on_ide_token(Some(login("rt-ide", "at-a")), None);
    assert!(!run.changed_store());
    assert_eq!(run.on_store(service, accounts), StoreWork::Save);
    assert_eq!(run.stage, RefreshStage::Retrying);
    run
}

#[test]
fn rescue_is_told_though_the_retry_fails() {
    for expired in [false, true] {
        let mut service = TokenRefreshService::new();
        let mut accounts = vec![account("a", "rt")];
        let mut run = rescued(&mut service, &mut accounts);
        run.on_refresh_failed("invalid_grant", true);
        run.on_expiry_checked(&mut service, expired);
        assert_eq!(run.stage, RefreshStage::Finished(false));
        assert!(run.changed_store());
        assert_eq!(accounts[0].refresh_token.as_deref(), Some("rt-ide"));
    }
}

#[test]
fn rescue_is_told_though_fresh_tokens_are_not_stored() {
    let mut service = TokenRefreshService::new();
    let mut accounts = vec![account("a", "rt")];
    let mut run = rescued(&mut service, &mut accounts);
    run.on_refreshed();
    run.on_store(&mut service, &mut accounts);
    run.on_saved(&mut service, false, 9);
    assert_eq!(run.stage, RefreshStage::Finished(false));
    assert!(run.changed_store());

    // The account is gone when it is to be disabled.
    service.bump_strikes("b");
    service.bump_strikes("b");
    let mut accounts = vec![account("b", "rt")];
    accounts[0].access_token = Some("at-a".to_string());
    let mut run = rescued(&mut service, &mut accounts);
    run.on_refresh_failed("invalid_grant", true);
    run.on_expiry_checked(&mut service, true);
    assert_eq!(run.stage, RefreshStage::Disabling);
    assert_eq!(run.on_store(&mut service, &mut Vec::new()), StoreWork::Nothing);
    assert!(run.changed_store());
}

#[test]
fn rescue_is_announced() {
    let mut service = TokenRefreshService::new();
    let mut accounts = vec![account("a", "rt")];
    let mut pass = RefreshPass::new(vec![account("a", "rt")]);
    pass.on_expiry_checked(&mut service, true, 0);
    let mut run = rescued(&mut service, &mut accounts);
    run.on_refresh_failed("invalid_grant", true);
    run.on_expiry_checked(&mut service, false);
    pass.on_refreshed(&mut service, run.changed_store());
    assert!(pass.should_announce());
}

#[test]
fn pass_reserves_due_accounts_in_order() {
    let mut service = TokenRefreshService::new();
    service.mark_success_at("b", 1000);
    let mut pass =
        RefreshPass::new(vec![account("c", "1"), account("b", "2"), account("a", "3")]);
    let mut reserved = Vec::new();
    while let Some(id) = pass.current().map(|a| a.id.clone()) {
        pass.on_expiry_checked(&mut service, true, 1001);
        if pass.is_refreshing() {
            reserved.push(id);
            pass.on_refreshed(&mut service, false);
        }
    }
    assert_eq!(reserved, vec!["c", "a"]);
}

#[test]
fn other_login_rescues_nothing() {
    let mut service = TokenRefreshService::new();
    let mut accounts = vec![account("a", "rt")];
    let mut run = RefreshRun::new(&accounts[0]);
    run.on_refresh_failed("invalid_grant", true);
    run.on_store(&mut service, &mut accounts);
    run.on_ide_token(Some(login("rt-x", "at-x")), None);
    assert_eq!(run.stage, RefreshStage::Judging);
    // Nor does the same login with the same tokens.
    let mut run = RefreshRun::new(&accounts[0]);
    run.on_refresh_failed("invalid_grant", true);
    run.on_store(&mut service, &mut accounts);
    run.on_ide_token(Some(login("rt", "at-a")), None);
    assert_eq!(run.stage, RefreshStage::Rescuing);
    assert_eq!(run.on_store(&mut service, &mut accounts), StoreWork::Nothing);
    assert_eq!(run.stage, RefreshStage::Judging);
}

#[test]
fn misplaced_outcomes_are_ignored() {
    let mut service = TokenRefreshService::new();
    let mut accounts = vec![account("a", "rt")];
    let mut run = RefreshRun::new(&accounts[0]);
    run.on_ide_synced();
    run.on_saved(&mut service, true, 1);
    run.on_ide_token(Some(login("rt", "at")), None);
    run.on_expiry_checked(&mut service, true);
    assert_eq!(run.on_store(&mut service, &mut accounts), StoreWork::Nothing);
    assert_eq!(run.stage, RefreshStage::Requesting);
    assert_eq!(service.bump_strikes("a"), (1, false));
}

#[test]
fn pass_stands_at_accounts_in_good_standing() {
    let mut banned = account("banned", "1");
    banned.status = "banned".to_string();
    let mut invalid = account("invalid", "2");
    invalid.status = "invalid".to_string();
    let mut endless = account("endless", "3");
    endless.expires_at = None;
    let mut service = TokenRefreshService::new();
    let mut pass = RefreshPass::new(vec![
        banned,
        account("a", "4"),
        invalid,
        endless,
        account("b", "5"),
    ]);
    assert_eq!(pass.current().unwrap().id, "a");
    pass.on_expiry_checked(&mut service, true, 0);
    assert!(pass.is_refreshing());
    assert!(!service.try_acquire("a"));
    pass.on_refreshed(&mut service, false);
    assert!(service.try_acquire("a"));
    assert_eq!(pass.current().unwrap().id, "b");
    pass.on_expiry_checked(&mut service, false, 0);
    assert!(pass.is_over());
    assert!(pass.current().is_none());
    assert!(!pass.should_announce());
}

#[test]
fn pass_skips_accounts_that_are_not_due() {
    let mut service = TokenRefreshService::new();
    service.mark_success_at("cooling", 1000);
    service.try_acquire("held");
    let mut pass = RefreshPass::new(vec![account("cooling", "1"), account("held", "2")]);
    pass.on_expiry_checked(&mut service, true, 1001);
    assert_eq!(pass.current().unwrap().id, "held");
    pass.on_expiry_checked(&mut service, true, 1001);
    assert!(pass.is_over());
    assert!(!service.try_acquire("held"));
}

#[test]
fn pass_announces_a_change() {
    let mut service = TokenRefreshService::new();
    let mut pass = RefreshPass::new(vec![account("a", "1"), account("b", "2")]);
    pass.on_refreshed(&mut service, true);
    assert_eq!(pass.current().unwrap().id, "a");
    pass.on_expiry_checked(&mut service, true, 0);
    pass.on_expiry_checked(&mut service, false, 0);
    assert!(pass.is_refreshing());
    pass.on_refreshed(&mut service, true);
    assert!(!pass.should_announce());
    pass.on_expiry_checked(&mut service, true, 0);
    pass.on_refreshed(&mut service, false);
    assert!(pass.should_announce());
    assert!(!RefreshPass::new(Vec::new()).should_announce());
}
