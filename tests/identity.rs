use silly_goals_auth::identity::{
    email_key, identity_for_user, identity_user_id, login_entry, resolve_user,
    user_id_from_identity, AuthIdentity, IdentityError, LoginEntry, UserLookup,
};
use silly_goals_auth::mail::{build_email_for_user, parse_email_to_mailbox};
use silly_goals_auth::User;

fn user() -> User {
    User { id: 1, name: None, email: "a@example.com".to_string(), userid: 5, is_new_user: true }
}

#[test]
fn email_key_is_lower_case() {
    assert_eq!(email_key("New@Example.COM"), "new@example.com");
    assert_eq!(email_key("plain@example.com"), "plain@example.com");
}

#[test]
fn identity_text_round_trips() {
    let text = identity_for_user(42);
    assert_eq!(text, "00000000-0000-0000-0000-00000000002a");
    assert_eq!(user_id_from_identity(&text), Ok(42));
    assert_eq!(user_id_from_identity("67e55044-10b1-426f-9247-bb680e5fe0c8"), Ok(0x67e5504410b1426f9247bb680e5fe0c8));
    assert_eq!(user_id_from_identity("not-a-uuid"), Err(IdentityError::Internal));
}

#[test]
fn anonymous_requests_have_no_user_id() {
    assert_eq!(identity_user_id(&AuthIdentity::Anonymous), None);
    let signed_in = AuthIdentity::Authenticated("00000000-0000-0000-0000-000000000007".to_string());
    assert_eq!(identity_user_id(&signed_in), Some(7));
    assert_eq!(identity_user_id(&AuthIdentity::Authenticated("x".to_string())), None);
}

#[test]
fn missing_account_is_unauthorized_not_internal() {
    assert!(matches!(resolve_user(UserLookup::NotFound), Err(IdentityError::Unauthorized)));
    assert!(matches!(resolve_user(UserLookup::Failed), Err(IdentityError::Internal)));
    match resolve_user(UserLookup::Found(user())) {
        Ok(u) => assert_eq!(u.userid, 5),
        Err(_) => panic!("account was found"),
    }
}

#[test]
fn mail_needs_a_parsable_address() {
    assert!(parse_email_to_mailbox("someone@example.com").is_ok());
    assert!(parse_email_to_mailbox("someone").is_err());
    let mail = build_email_for_user("someone@example.com", "Hi", "Body").unwrap();
    assert_eq!(mail.to, "someone@example.com");
    assert_eq!(mail.subject, "Hi");
    assert_eq!(mail.body, "Body");
    assert!(build_email_for_user("@", "Hi", "Body").is_err());
}

#[test]
fn login_page_response_follows_the_identity() {
    let signed_in = AuthIdentity::Authenticated("00000000-0000-0000-0000-000000000007".to_string());
    assert_eq!(login_entry(&AuthIdentity::Anonymous, false), LoginEntry::ShowForm);
    assert_eq!(login_entry(&signed_in, true), LoginEntry::ToProfile);
    assert_eq!(login_entry(&signed_in, false), LoginEntry::SignOut);
}
