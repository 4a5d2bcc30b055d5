use base64::engine::general_purpose::URL_SAFE_NO_PAD;
use base64::Engine;
use kiro_accounts::user_info::{
    account_service_path, enterprise_user_info, extract_user_info_from_jwt, jwt_payload,
    user_info_from_claims, UserClaims, UserInfo,
};

fn info(email: Option<&str>, user_id: Option<&str>) -> UserInfo {
    UserInfo {
        email: email.map(|s| s.to_string()),
        user_id: user_id.map(|s| s.to_string()),
    }
}

/// A token with this payload.
fn token(json: &str) -> String {
    format!("head.{}.sign", URL_SAFE_NO_PAD.encode(json))
}

#[test]
fn payload_is_the_middle_of_three_parts() {
    assert_eq!(jwt_payload("a.b.c"), Some("b"));
    assert_eq!(jwt_payload(".."), Some(""));
    assert_eq!(jwt_payload("\u{4e2d}.\u{6587}x.c"), Some("\u{6587}x"));
    assert_eq!(jwt_payload(""), None);
    assert_eq!(jwt_payload("a.b"), None);
    assert_eq!(jwt_payload("a.b.c.d"), None);
}

#[test]
fn token_names_email_and_user() {
    let jwt = token(r#"{"email":"a@example.com","user_id":"u-1"}"#);
    assert_eq!(extract_user_info_from_jwt(&jwt), info(Some("a@example.com"), Some("u-1")));
}

#[test]
fn token_falls_back_to_the_user_name() {
    let jwt = token(r#"{"email":"","user_id":"","cognito:username":"name"}"#);
    assert_eq!(extract_user_info_from_jwt(&jwt), info(None, Some("name")));
    let jwt = token(r#"{"user_id":7,"cognito:username":"name"}"#);
    assert_eq!(extract_user_info_from_jwt(&jwt), info(None, Some("name")));
}

#[test]
fn unreadable_token_names_nobody() {
    let nobody = info(None, None);
    // No three parts, no base64, no UTF-8, no JSON, no object.
    assert_eq!(extract_user_info_from_jwt("abc"), nobody);
    assert_eq!(extract_user_info_from_jwt("a.!!!!.c"), nobody);
    let bytes = URL_SAFE_NO_PAD.encode([0xff, 0xfe, 0xfd]);
    assert_eq!(extract_user_info_from_jwt(&format!("a.{bytes}.c")), nobody);
    assert_eq!(extract_user_info_from_jwt(&token("{")), nobody);
    assert_eq!(extract_user_info_from_jwt(&token(r#"["email"]"#)), nobody);
}

#[test]
fn payload_of_any_length_is_read() {
    // 23 characters of base64, which no padding follows.
    let jwt = "h.eyJlbWFpbCI6ImFAYi5jIn0.s";
    assert_eq!(jwt_payload(jwt).unwrap().len(), 23);
    assert_eq!(extract_user_info_from_jwt(jwt), info(Some("a@b.c"), None));

    // Every remainder that an encoding can leave.
    for email in ["a@b.c", "a@b.cd", "a@b.cde"] {
        let jwt = token(&format!(r#"{{"email":"{email}"}}"#));
        assert_eq!(extract_user_info_from_jwt(&jwt), info(Some(email), None));
    }
}

#[test]
fn padded_payload_names_nobody() {
    assert_eq!(extract_user_info_from_jwt("h.eyJlbWFpbCI6ImFAYi5jIn0=.s"), info(None, None));
    // A length that no encoding has.
    assert_eq!(extract_user_info_from_jwt("h.eyJlb.s"), info(None, None));
}

#[test]
fn first_nonempty_id_counts() {
    let claims = |email: Option<&str>, id: Option<&str>, other: Option<&str>| UserClaims {
        email: email.map(|s| s.to_string()),
        id: id.map(|s| s.to_string()),
        other_id: other.map(|s| s.to_string()),
    };
    assert_eq!(
        user_info_from_claims(claims(Some("e"), Some("1"), Some("2"))),
        info(Some("e"), Some("1"))
    );
    assert_eq!(user_info_from_claims(claims(Some(""), Some(""), Some("2"))), info(None, Some("2")));
    assert_eq!(user_info_from_claims(claims(None, None, Some(""))), info(None, None));
    // Blanks are no empty text.
    assert_eq!(user_info_from_claims(claims(Some(" "), None, None)), info(Some(" "), None));
}

#[test]
fn account_service_names_the_user() {
    let reply = |text: &str| serde_json::from_str::<serde_json::Value>(text).unwrap();
    assert_eq!(
        enterprise_user_info(&reply(r#"{"email":"a@b.c","userId":"1","user_id":"2"}"#)),
        info(Some("a@b.c"), Some("1"))
    );
    assert_eq!(
        enterprise_user_info(&reply(r#"{"userId":"","user_id":"2"}"#)),
        info(None, Some("2"))
    );
    assert_eq!(enterprise_user_info(&reply("null")), info(None, None));
    assert_eq!(enterprise_user_info(&reply(r#"{"email":["x"]}"#)), info(None, None));
}

#[test]
fn account_service_is_asked_by_machine_id() {
    assert_eq!(account_service_path("m-1"), "/getAccount?machineId=m-1");
}
