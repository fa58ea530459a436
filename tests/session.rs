use silly_goals_auth::session_value::{SessionError, SessionValue};
use silly_goals_auth::store::SessionStore;
use silly_goals_auth::values::{LoginCode, LoginEmail, RegistrationEmail, UsedWebauthn};

#[test]
fn store_insert_replaces_and_remove_hands_back() {
    let mut store = SessionStore::new();
    assert_eq!(store.get("a"), None);
    store.insert("a", "1".to_string());
    store.insert("b", "2".to_string());
    store.insert("a", "3".to_string());
    assert_eq!(store.get("a"), Some("3".to_string()));
    assert_eq!(store.get("b"), Some("2".to_string()));
    assert_eq!(store.remove("a"), Some("3".to_string()));
    assert_eq!(store.get("a"), None);
    assert_eq!(store.remove("a"), None);
    assert_eq!(store.get("b"), Some("2".to_string()));
}

#[test]
fn value_saved_is_stored_as_json_and_reads_back() {
    let mut store = SessionStore::new();
    let email = LoginEmail::from("someone@example.com");
    email.save(&mut store);
    assert_eq!(store.get("login_email"), Some("\"someone@example.com\"".to_string()));
    let read = LoginEmail::get(&store).unwrap().unwrap();
    assert_eq!(read.to_string(), "someone@example.com");
}

#[test]
fn json_escapes_quotes_and_reads_them_back() {
    let mut store = SessionStore::new();
    RegistrationEmail::from("a\"b@example.com").save(&mut store);
    assert_eq!(store.get("registration_email"), Some("\"a\\\"b@example.com\"".to_string()));
    let read = RegistrationEmail::get(&store).unwrap().unwrap();
    assert_eq!(read.as_str(), "a\"b@example.com");
}

#[test]
fn absent_value_is_none() {
    let store = SessionStore::new();
    assert_eq!(LoginCode::get(&store), Ok(None));
    assert_eq!(LoginCode::get_some_or_err(&store), Err(SessionError::Missing));
}

#[test]
fn corrupt_value_is_an_error_not_none() {
    let mut store = SessionStore::new();
    store.insert("login_code", "not json".to_string());
    assert_eq!(LoginCode::get(&store), Err(SessionError::Corrupt));
    assert_eq!(LoginCode::get_some_or_err(&store), Err(SessionError::Corrupt));
}

#[test]
fn remove_reports_whether_a_value_was_there() {
    let mut store = SessionStore::new();
    assert_eq!(LoginEmail::remove(&mut store), None);
    LoginEmail::from("x@example.com").save(&mut store);
    assert_eq!(LoginEmail::remove(&mut store), Some("\"x@example.com\"".to_string()));
    assert_eq!(LoginEmail::get(&store), Ok(None));
}

#[test]
fn slot_names_are_fixed_and_distinct() {
    let names = [
        LoginCode::save_name(),
        RegistrationEmail::save_name(),
        LoginEmail::save_name(),
        UsedWebauthn::save_name(),
        silly_goals_auth::csrf_token::CsrfToken::save_name(),
        silly_goals_auth::values::ChangeEmail::save_name(),
    ];
    assert_eq!(names[0], "login_code");
    assert_eq!(names[1], "registration_email");
    assert_eq!(names[2], "login_email");
    assert_eq!(names[3], "used_webauthn");
    assert_eq!(names[4], "csrf_token");
    assert_eq!(names[5], "change_email");
    for i in 0..names.len() {
        for j in (i + 1)..names.len() {
            assert_ne!(names[i], names[j]);
        }
    }
}

#[test]
fn used_webauthn_defaults_to_false() {
    let mut store = SessionStore::new();
    assert_eq!(UsedWebauthn::get_or_false(&store).unwrap().value(), false);
    UsedWebauthn::from(true).save(&mut store);
    assert_eq!(store.get("used_webauthn"), Some("true".to_string()));
    let flag = UsedWebauthn::get_or_false(&store).unwrap();
    assert!(flag.value());
    assert!(!flag.not());
    store.insert("used_webauthn", "\"yes\"".to_string());
    assert_eq!(UsedWebauthn::get_or_false(&store), Err(SessionError::Corrupt));
}
