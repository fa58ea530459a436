use silly_goals_auth::csrf_token::CsrfToken;
use silly_goals_auth::error::AuthError;
use silly_goals_auth::session_value::{SessionError, SessionValue};
use silly_goals_auth::store::SessionStore;

#[test]
fn get_or_create_twice_gives_the_same_token() {
    let mut store = SessionStore::new();
    let first = CsrfToken::get_or_create(&mut store).unwrap();
    let after_first = store.get("csrf_token");
    let second = CsrfToken::get_or_create(&mut store).unwrap();
    assert_eq!(first, second);
    assert_eq!(store.get("csrf_token"), after_first);
}

#[test]
fn new_token_is_base64_of_32_bytes() {
    let token = CsrfToken::new();
    assert_eq!(token.to_string().len(), "<input type=\"hidden\" value=\"\" name=\"csrftoken\">".len() + 44);
    let mut store = SessionStore::new();
    token.save(&mut store);
    let raw = store.get("csrf_token").unwrap();
    // a JSON string holding 44 base64 characters, the last one padding
    assert_eq!(raw.len(), 46);
    assert!(raw.ends_with("=\""));
    assert_ne!(CsrfToken::new(), token);
}

#[test]
fn existing_token_is_kept() {
    let mut store = SessionStore::new();
    CsrfToken::from("abc").save(&mut store);
    assert_eq!(CsrfToken::get_or_create(&mut store).unwrap(), CsrfToken::from("abc"));
}

#[test]
fn corrupt_token_is_an_error() {
    let mut store = SessionStore::new();
    store.insert("csrf_token", "{".to_string());
    assert_eq!(CsrfToken::get_or_create(&mut store), Err(SessionError::Corrupt));
    assert_eq!(store.get("csrf_token"), Some("{".to_string()));
}

#[test]
fn verify_from_session_accepts_only_the_exact_token() {
    let mut store = SessionStore::new();
    assert_eq!(CsrfToken::verify_from_session(&store, "abc"), Err(AuthError::Forgery));
    CsrfToken::from("AbC+/=").save(&mut store);
    assert_eq!(CsrfToken::verify_from_session(&store, "AbC+/="), Ok(()));
    assert_eq!(CsrfToken::verify_from_session(&store, "abc+/="), Err(AuthError::Forgery));
    assert_eq!(CsrfToken::verify_from_session(&store, "AbC+/"), Err(AuthError::Forgery));
    assert_eq!(CsrfToken::verify_from_session(&store, " AbC+/="), Err(AuthError::Forgery));
    assert_eq!(CsrfToken::verify_from_session(&store, ""), Err(AuthError::Forgery));
}

#[test]
fn verify_follows_the_most_recent_token() {
    let mut store = SessionStore::new();
    CsrfToken::from("one").save(&mut store);
    CsrfToken::from("two").save(&mut store);
    assert_eq!(CsrfToken::verify_from_session(&store, "one"), Err(AuthError::Forgery));
    assert_eq!(CsrfToken::verify_from_session(&store, "two"), Ok(()));
}

#[test]
fn token_verify_is_exact() {
    let token = CsrfToken::from("xyz");
    assert!(token.verify("xyz"));
    assert!(!token.verify("XYZ"));
    assert!(!token.verify("xyz "));
}

#[test]
fn token_renders_as_hidden_field() {
    assert_eq!(
        CsrfToken::from("tok").to_string(),
        "<input type=\"hidden\" value=\"tok\" name=\"csrftoken\">"
    );
}
