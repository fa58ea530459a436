use silly_goals_auth::csrf_token::CsrfToken;
use silly_goals_auth::error::AuthError;
use silly_goals_auth::flows::{
    complete_login, complete_registration, finish_login, finish_registration, login_with_code,
    post_login, post_profile_confirm_email, post_profile_edit_email, register_email,
    reset_email_change, start_flow, CodeCheck, EmailChangeStep, LOGIN_NOTICE_BODY,
    REGISTRATION_NOTICE_BODY,
};
use silly_goals_auth::session_value::{SessionError, SessionValue};
use silly_goals_auth::store::SessionStore;
use silly_goals_auth::values::{ChangeEmail, LoginCode, LoginEmail, RegistrationEmail};

fn session_with_token() -> SessionStore {
    let mut store = SessionStore::new();
    CsrfToken::from("tok").save(&mut store);
    store
}

fn verified_email(r: Result<CodeCheck, AuthError>) -> String {
    match r {
        Ok(CodeCheck::Verified(e)) => e,
        _ => panic!("code was not verified"),
    }
}

#[test]
fn registration_with_a_new_email() {
    let mut store = session_with_token();
    start_flow(&mut store, "tok").unwrap();
    let code = LoginCode::from_number(123456);
    let mail = register_email(&mut store, "new@example.com", false, &code).unwrap();
    assert_eq!(mail.to, "new@example.com");
    assert_eq!(mail.subject, "Registration Code for Silly Goals");
    assert_eq!(mail.body, "Use code 123456 to confirm your new account and log in.");
    assert_eq!(LoginCode::get(&store).unwrap().unwrap(), code);
    assert_eq!(RegistrationEmail::get(&store).unwrap().unwrap().as_str(), "new@example.com");

    let wrong = finish_registration(&store, "tok", "654321");
    assert!(matches!(wrong, Ok(CodeCheck::Invalid)));
    assert_eq!(LoginCode::get(&store).unwrap().unwrap(), code);

    let email = verified_email(finish_registration(&store, "tok", "123456"));
    assert_eq!(email, "new@example.com");
    complete_registration(&mut store);
    assert_eq!(LoginCode::get(&store), Ok(None));
    assert_eq!(RegistrationEmail::get(&store), Ok(None));
    assert!(CsrfToken::verify_from_session(&store, "tok").is_ok());
}

#[test]
fn registration_stores_the_address_in_lower_case() {
    let mut store = session_with_token();
    let code = LoginCode::from_number(5);
    register_email(&mut store, "New@Example.COM", false, &code).unwrap();
    let email = verified_email(finish_registration(&store, "tok", "000005"));
    assert_eq!(email, "new@example.com");
}

#[test]
fn registration_with_an_existing_email() {
    let mut store = session_with_token();
    start_flow(&mut store, "tok").unwrap();
    let before = store.get("csrf_token");
    let code = LoginCode::from_number(111111);
    let mail = register_email(&mut store, "existing@example.com", true, &code).unwrap();
    assert_eq!(mail.to, "existing@example.com");
    assert_eq!(mail.subject, "Silly Goals Registration");
    assert_eq!(mail.body, REGISTRATION_NOTICE_BODY);
    assert_eq!(LoginCode::get(&store), Ok(None));
    assert_eq!(RegistrationEmail::get(&store), Ok(None));
    assert_eq!(store.get("csrf_token"), before);
    assert!(matches!(finish_registration(&store, "tok", "111111"), Ok(CodeCheck::Restart)));
}

#[test]
fn registration_to_an_unparsable_address_fails() {
    let mut store = session_with_token();
    let code = LoginCode::from_number(1);
    let r = register_email(&mut store, "not an address", false, &code);
    assert!(matches!(r, Err(AuthError::InvalidEmail)));
    let r = register_email(&mut store, "still not", true, &code);
    assert!(matches!(r, Err(AuthError::InvalidEmail)));
}

#[test]
fn start_flow_rejects_a_forged_token_without_changes() {
    let mut store = session_with_token();
    RegistrationEmail::from("a@example.com").save(&mut store);
    assert_eq!(start_flow(&mut store, "other"), Err(AuthError::Forgery));
    assert!(RegistrationEmail::get(&store).unwrap().is_some());
    let mut empty = SessionStore::new();
    assert_eq!(start_flow(&mut empty, ""), Err(AuthError::Forgery));
}

#[test]
fn login_after_pending_registration_clears_it() {
    let mut store = session_with_token();
    start_flow(&mut store, "tok").unwrap();
    register_email(&mut store, "new@example.com", false, &LoginCode::from_number(42)).unwrap();
    start_flow(&mut store, "tok").unwrap();
    assert_eq!(RegistrationEmail::get(&store), Ok(None));
    assert_eq!(LoginCode::get(&store), Ok(None));
    assert_eq!(LoginEmail::get(&store), Ok(None));
    assert!(matches!(finish_registration(&store, "tok", "000042"), Ok(CodeCheck::Restart)));
}

#[test]
fn finish_registration_checks_token_first() {
    let mut store = session_with_token();
    register_email(&mut store, "new@example.com", false, &LoginCode::from_number(42)).unwrap();
    assert!(matches!(finish_registration(&store, "bad", "000042"), Err(AuthError::Forgery)));
}

#[test]
fn finish_registration_reports_corrupt_markers() {
    let mut store = session_with_token();
    store.insert("registration_email", "[".to_string());
    assert!(matches!(
        finish_registration(&store, "tok", "000000"),
        Err(AuthError::Session(SessionError::Corrupt))
    ));
    RegistrationEmail::from("a@example.com").save(&mut store);
    assert!(matches!(finish_registration(&store, "tok", "000000"), Ok(CodeCheck::Restart)));
    store.insert("login_code", "0".to_string());
    assert!(matches!(
        finish_registration(&store, "tok", "000000"),
        Err(AuthError::Session(SessionError::Corrupt))
    ));
}

#[test]
fn login_for_a_known_account() {
    let mut store = session_with_token();
    start_flow(&mut store, "tok").unwrap();
    let r = post_login(&mut store, "User@Example.com", Some("user@example.com")).unwrap();
    assert!(r.is_none());
    assert_eq!(LoginEmail::get(&store).unwrap().unwrap().as_str(), "user@example.com");

    let code = LoginCode::from_number(987654);
    let mail = login_with_code(&mut store, &code).unwrap().unwrap();
    assert_eq!(mail.to, "user@example.com");
    assert_eq!(mail.subject, "Login Code for Silly Goals");
    assert_eq!(mail.body, "Use code 987654 to log in to your account.");

    assert!(matches!(finish_login(&store, "tok", "000000"), Ok(CodeCheck::Invalid)));
    let email = verified_email(finish_login(&store, "tok", "987654"));
    assert_eq!(email, "user@example.com");
    complete_login(&mut store);
    assert_eq!(LoginEmail::get(&store), Ok(None));
    assert_eq!(LoginCode::get(&store), Ok(None));
}

#[test]
fn login_for_an_unknown_address_sends_a_notice() {
    let mut store = session_with_token();
    let before = store.get("csrf_token");
    let mail = post_login(&mut store, "nobody@example.com", None).unwrap().unwrap();
    assert_eq!(mail.to, "nobody@example.com");
    assert_eq!(mail.subject, "Login Attempt at Silly Goals");
    assert_eq!(mail.body, LOGIN_NOTICE_BODY);
    assert_eq!(LoginEmail::get(&store), Ok(None));
    assert_eq!(store.get("csrf_token"), before);
}

#[test]
fn login_code_without_pending_login_does_nothing() {
    let mut store = session_with_token();
    let r = login_with_code(&mut store, &LoginCode::from_number(1)).unwrap();
    assert!(r.is_none());
    assert_eq!(LoginCode::get(&store), Ok(None));
    assert!(matches!(finish_login(&store, "tok", "000001"), Ok(CodeCheck::Restart)));
}

#[test]
fn a_new_login_code_replaces_the_old_one() {
    let mut store = session_with_token();
    post_login(&mut store, "u@example.com", Some("u@example.com")).unwrap();
    login_with_code(&mut store, &LoginCode::from_number(1)).unwrap();
    login_with_code(&mut store, &LoginCode::from_number(2)).unwrap();
    assert!(matches!(finish_login(&store, "tok", "000001"), Ok(CodeCheck::Invalid)));
    assert!(matches!(finish_login(&store, "tok", "000002"), Ok(CodeCheck::Verified(_))));
}

#[test]
fn email_change_to_a_taken_address() {
    let mut store = session_with_token();
    LoginCode::from_number(3).save(&mut store);
    let r = post_profile_edit_email(&mut store, "tok", "taken@example.com", true, &LoginCode::from_number(4));
    assert!(matches!(r, Ok(EmailChangeStep::Unavailable)));
    assert_eq!(LoginCode::get(&store), Ok(None));
    assert_eq!(ChangeEmail::get(&store), Ok(None));
}

#[test]
fn email_change_to_a_free_address() {
    let mut store = session_with_token();
    let code = LoginCode::from_number(246810);
    let step = post_profile_edit_email(&mut store, "tok", "Fresh@Example.com", false, &code).unwrap();
    match step {
        EmailChangeStep::CodeSent(mail) => {
            assert_eq!(mail.to, "Fresh@Example.com");
            assert_eq!(mail.subject, "Confirmation Code for Silly Goals");
            assert_eq!(mail.body, "Use code 246810 to confirm your email address.");
        }
        EmailChangeStep::Unavailable => panic!("address was free"),
    }
    assert!(matches!(post_profile_confirm_email(&store, "tok", "111111"), Ok(CodeCheck::Invalid)));
    let email = verified_email(post_profile_confirm_email(&store, "tok", "246810"));
    assert_eq!(email, "fresh@example.com");
    reset_email_change(&mut store);
    assert!(matches!(post_profile_confirm_email(&store, "tok", "246810"), Ok(CodeCheck::Restart)));
}

#[test]
fn email_change_needs_the_token() {
    let mut store = session_with_token();
    let r = post_profile_edit_email(&mut store, "nope", "a@example.com", false, &LoginCode::from_number(1));
    assert!(matches!(r, Err(AuthError::Forgery)));
    assert!(matches!(post_profile_confirm_email(&store, "nope", "000001"), Err(AuthError::Forgery)));
}

#[test]
fn resending_a_login_code_drops_a_pending_registration() {
    let mut store = session_with_token();
    RegistrationEmail::from("new@example.com").save(&mut store);
    LoginEmail::from("user@example.com").save(&mut store);
    login_with_code(&mut store, &LoginCode::from_number(77)).unwrap();
    assert_eq!(RegistrationEmail::get(&store), Ok(None));
    assert_eq!(LoginCode::get(&store).unwrap().unwrap().to_string(), "000077");
}

#[test]
fn confirmed_change_address_is_lower_case() {
    let mut store = session_with_token();
    ChangeEmail::from("Mixed@Example.com").save(&mut store);
    LoginCode::from_number(5).save(&mut store);
    let email = verified_email(post_profile_confirm_email(&store, "tok", "000005"));
    assert_eq!(email, "mixed@example.com");
}
