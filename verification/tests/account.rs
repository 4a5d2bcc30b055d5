use kiro_accounts::account::{
    account_label, create_account_label, find_by_id, find_existing_account, Account,
};

fn bare(id: &str) -> Account {
    Account {
        id: id.to_string(),
        email: None,
        user_id: None,
        label: "t".to_string(),
        status: "active".to_string(),
        enabled: true,
        provider: None,
        auth_method: None,
        access_token: None,
        refresh_token: None,
        expires_at: None,
        client_id: None,
        client_secret: None,
        client_id_hash: None,
        start_url: None,
        region: None,
        profile_arn: None,
        machine_id: None,
        usage_data: None,
    }
}

fn user(id: &str, user_id: &str) -> Account {
    let mut a = bare(id);
    a.user_id = Some(user_id.to_string());
    a
}

#[test]
fn account_is_found_by_id() {
    let accounts = vec![bare("a"), bare("b"), bare("b")];
    assert_eq!(find_by_id(&accounts, "b"), Some(1));
    assert_eq!(find_by_id(&accounts, "c"), None);
    assert_eq!(find_by_id(&Vec::new(), "a"), None);
}

#[test]
fn stored_account_is_found_by_user_id_alone() {
    let mut mailed = bare("m");
    mailed.email = Some("a@b.c".to_string());
    let accounts = vec![mailed, user("x", "u"), user("y", "u")];
    let uid = "u".to_string();
    let email = "a@b.c".to_string();
    assert_eq!(find_existing_account(&accounts, Some(&uid), Some(&email)), Some(1));
    assert_eq!(find_existing_account(&accounts, None, Some(&email)), None);
    assert_eq!(find_existing_account(&accounts, Some(&email), None), None);
}

#[test]
fn label_prefers_the_email() {
    let mut a = bare("a");
    assert_eq!(account_label(&a), "Unknown");
    a.user_id = Some("u".to_string());
    assert_eq!(account_label(&a), "u");
    a.email = Some("e".to_string());
    assert_eq!(account_label(&a), "e");
}

#[test]
fn imported_account_keeps_a_stored_label() {
    let stored = bare("a");
    assert_eq!(create_account_label(false, "key", Some(&stored)), "t");
    assert_eq!(create_account_label(true, "key", Some(&stored)), "从 kiro-cli 导入 (key)");
    assert_eq!(create_account_label(true, "key", None), "从 kiro-cli 导入 (key)");
    assert_eq!(create_account_label(false, "key", None), "从 kiro-cli 导入 (key)");
}

#[test]
fn copy_of_an_account_is_equal() {
    let mut a = user("a", "u");
    a.usage_data = Some("{}".to_string());
    assert_eq!(a.clone(), a);
}
