use kiro_accounts::account::{Account, KiroLocalToken};
use kiro_accounts::token_sync::{
    account_matches_ide_token, apply_ide_tokens_to_account, expiry_to_normalize,
    record_refresh_auth_failure, should_skip_refresh_cooldown, sync_kam_tokens_to_ide,
    sync_kam_tokens_to_ide_if_current, SyncError, REFRESH_SUCCESS_COOLDOWN_SECS,
};

fn bare(id: &str) -> Account {
    Account {
        id: id.to_string(),
        email: Some("a@example.com".to_string()),
        user_id: None,
        label: "t".to_string(),
        status: "active".to_string(),
        enabled: true,
        provider: None,
        auth_method: None,
        access_token: None,
        refresh_token: None,
        expires_at: None,
        client_id: None,
        client_secret: None,
        client_id_hash: None,
        start_url: None,
        region: None,
        profile_arn: None,
        machine_id: None,
        usage_data: None,
    }
}

fn account_with_tokens(rt: &str, at: &str, hash: Option<&str>) -> Account {
    let mut a = bare("a");
    a.refresh_token = Some(rt.to_string());
    a.access_token = Some(at.to_string());
    a.client_id_hash = hash.map(|s| s.to_string());
    a
}

fn local(rt: Option<&str>, at: Option<&str>, hash: Option<&str>) -> KiroLocalToken {
    KiroLocalToken {
        access_token: at.map(|s| s.to_string()),
        refresh_token: rt.map(|s| s.to_string()),
        expires_at: None,
        auth_method: Some("IdC".to_string()),
        provider: Some("Enterprise".to_string()),
        profile_arn: None,
        client_id_hash: hash.map(|s| s.to_string()),
        region: Some("us-east-1".to_string()),
    }
}

#[test]
fn matches_by_refresh_token() {
    let acc = account_with_tokens("rt-same", "at-a", None);
    let other = account_with_tokens("rt-other", "at-b", None);
    let ide = local(Some("rt-same"), Some("at-ide"), None);
    assert!(account_matches_ide_token(&acc, &ide));
    assert!(!account_matches_ide_token(&other, &ide));
}

#[test]
fn matches_by_access_prefix() {
    let acc = account_with_tokens("rt1", "abcdefghijklmnopqrstuvwxyz", None);
    let ide = local(Some("rt-diff"), Some("abcdefghijklmnopqrst"), None);
    assert!(account_matches_ide_token(&acc, &ide));
}

#[test]
fn matches_by_client_id_hash() {
    let acc = account_with_tokens("rt1", "at1", Some("hash-abc"));
    let ide = local(Some("rt-x"), Some("at-y"), Some("hash-abc"));
    assert!(account_matches_ide_token(&acc, &ide));
}

#[test]
fn cooldown_skips_within_window() {
    assert!(should_skip_refresh_cooldown(Some(1000), 1000 + 60));
    assert!(!should_skip_refresh_cooldown(Some(1000), 1000 + REFRESH_SUCCESS_COOLDOWN_SECS));
    assert!(!should_skip_refresh_cooldown(None, 1000));
}

#[test]
fn strikes_disable_on_third() {
    assert_eq!(record_refresh_auth_failure(0), (1, false));
    assert_eq!(record_refresh_auth_failure(1), (2, false));
    assert_eq!(record_refresh_auth_failure(2), (3, true));
}

#[test]
fn access_prefix_has_twenty_bytes() {
    let ide = local(None, Some("abcdefghijklmnopqrst-ide"), None);
    assert!(account_matches_ide_token(
        &account_with_tokens("r", "abcdefghijklmnopqrst-own", None),
        &ide
    ));
    assert!(!account_matches_ide_token(
        &account_with_tokens("r", "abcdefghijklmnopqrs!-own", None),
        &ide
    ));
    // A shorter token of the IDE has to be there whole.
    let short = local(None, Some("abc"), None);
    assert!(account_matches_ide_token(&account_with_tokens("r", "abcdef", None), &short));
    assert!(!account_matches_ide_token(&account_with_tokens("r", "ab", None), &short));
}

#[test]
fn comparison_ignores_white_space_around_tokens() {
    let acc = account_with_tokens(" rt\n", "at", None);
    assert!(account_matches_ide_token(&acc, &local(Some("\trt\u{3000}"), None, None)));
}

#[test]
fn blank_fields_of_the_ide_match_nothing() {
    let acc = account_with_tokens("", "", Some(" "));
    assert!(!account_matches_ide_token(&acc, &local(Some("  "), Some(""), Some("\n"))));
    assert!(!account_matches_ide_token(&acc, &local(None, None, None)));
}

#[test]
fn prefix_inside_a_character_does_not_match() {
    // Twenty bytes end inside the last character but one.
    let token = "abcdefghijklmnopqrs\u{4e2d}x";
    let ide = local(None, Some(token), None);
    assert!(!account_matches_ide_token(&account_with_tokens("r", "other", None), &ide));
    let longer = account_with_tokens("r", "abcdefghijklmnopqrs\u{4e2d}y", None);
    assert!(!account_matches_ide_token(&longer, &ide));
    // Equal tokens match all the same.
    assert!(account_matches_ide_token(&account_with_tokens("r", token, None), &ide));
    // Here the prefix ends between two characters.
    let whole = "abcdefghijklmnopq\u{4e2d}x";
    assert!(account_matches_ide_token(
        &account_with_tokens("r", "abcdefghijklmnopq\u{4e2d}yz", None),
        &local(None, Some(whole), None)
    ));
}

#[test]
fn hash_matches_beside_a_prefix_inside_a_character() {
    let acc = account_with_tokens("rt1", "at1", Some("hash-abc"));
    let ide = local(Some("rt-x"), Some("abcdefghijklmnopqrs\u{e9}x"), Some("hash-abc"));
    assert!(account_matches_ide_token(&acc, &ide));
    assert!(sync_kam_tokens_to_ide_if_current(&acc, Some(&ide)).unwrap().is_some());
}

#[test]
fn cooldown_survives_a_clock_set_back() {
    assert!(should_skip_refresh_cooldown(Some(5000), 4000));
    assert!(should_skip_refresh_cooldown(Some(1000), 2799));
    assert!(!should_skip_refresh_cooldown(Some(1000), 2800));
    assert!(should_skip_refresh_cooldown(Some(u64::MAX), u64::MAX));
}

#[test]
fn strikes_do_not_overflow() {
    assert_eq!(record_refresh_auth_failure(u32::MAX), (u32::MAX, true));
}

#[test]
fn tokens_are_taken_over_once() {
    let mut acc = account_with_tokens("old-rt", "old-at", None);
    acc.expires_at = Some("2026/01/01 00:00:00".to_string());
    let mut ide = local(Some(" new-rt "), Some("new-at"), None);
    ide.expires_at = Some(" 2026-07-20T02:02:25.000Z ".to_string());
    assert_eq!(expiry_to_normalize(&ide), Some("2026-07-20T02:02:25.000Z"));
    let normalized = Some("2026/07/20 10:02:25".to_string());

    assert!(apply_ide_tokens_to_account(&mut acc, &ide, &normalized));
    assert_eq!(acc.refresh_token.as_deref(), Some("new-rt"));
    assert_eq!(acc.access_token.as_deref(), Some("new-at"));
    assert_eq!(acc.expires_at.as_deref(), Some("2026/07/20 10:02:25"));
    assert_eq!(acc.label, "t");

    assert!(!apply_ide_tokens_to_account(&mut acc, &ide, &normalized));
    assert!(account_matches_ide_token(&acc, &ide));
}

#[test]
fn blank_tokens_are_not_taken_over() {
    let mut acc = account_with_tokens("rt", "at", None);
    let mut ide = local(Some("  "), None, None);
    // An expiry that the IDE does not have is not looked at.
    assert!(!apply_ide_tokens_to_account(&mut acc, &ide, &Some("x".to_string())));
    assert_eq!(acc, account_with_tokens("rt", "at", None));
    // One that could not be brought into the store's format is dropped.
    ide.expires_at = Some("whenever".to_string());
    assert!(!apply_ide_tokens_to_account(&mut acc, &ide, &None));
    assert_eq!(acc.expires_at, None);
}

#[test]
fn write_to_the_ide_needs_both_tokens() {
    let write = sync_kam_tokens_to_ide(&account_with_tokens(" rt ", " at ", None)).unwrap();
    assert_eq!(write.access_token, "at");
    assert_eq!(write.refresh_token, "rt");
    assert!(write.expires_at.ends_with('Z'));

    let err = sync_kam_tokens_to_ide(&account_with_tokens("rt", " ", None)).unwrap_err();
    assert_eq!(err, SyncError::MissingAccessToken);
    assert_eq!(err.message(), "KAM 账号缺少 accessToken，无法回写 IDE");
    let err = sync_kam_tokens_to_ide(&account_with_tokens("", "at", None)).unwrap_err();
    assert_eq!(err, SyncError::MissingRefreshToken);
    assert_eq!(err.message(), "KAM 账号缺少 refreshToken，无法回写 IDE");
}

#[test]
fn write_to_the_ide_only_for_its_login() {
    let acc = account_with_tokens("rt", "at", None);
    assert_eq!(sync_kam_tokens_to_ide_if_current(&acc, None), Ok(None));
    let other = local(Some("x"), Some("y"), None);
    assert_eq!(sync_kam_tokens_to_ide_if_current(&acc, Some(&other)), Ok(None));

    let own = local(Some("rt"), Some("old"), None);
    let write = sync_kam_tokens_to_ide_if_current(&acc, Some(&own)).unwrap().unwrap();
    let written = local(Some(&write.refresh_token), Some(&write.access_token), None);
    assert!(account_matches_ide_token(&acc, &written));

    let mut incomplete = account_with_tokens("rt", "at", None);
    incomplete.access_token = None;
    assert_eq!(
        sync_kam_tokens_to_ide_if_current(&incomplete, Some(&own)),
        Err(SyncError::MissingAccessToken)
    );
}
