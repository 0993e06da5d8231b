use rusty::auth::Credentials;
use rusty::error::status_of;
use rusty::error::AuthError;
use rusty::shared::SharedTokenStore;
use rusty::store::TokenStore;

fn login(username: &str, password: &str) -> Credentials {
    Credentials { username: username.to_string(), password: password.to_string() }
}

#[test]
fn should_login() {
    let store = SharedTokenStore::new();

    let user = "User".to_string();
    let answer = store.issue(login(&user, "test"));
    assert_eq!(status_of(&answer), 200);

    let result = answer.unwrap();
    assert_eq!(result.user, user);
}

#[test]
fn should_fail_login() {
    let store = SharedTokenStore::new();

    let answer = store.issue(login("User", "nope"));
    assert_eq!(status_of(&answer), 403);
}

#[test]
fn should_check() {
    let token = "token".to_string();
    let user = "user".to_string();

    let mut data = TokenStore::new();
    data.insert(token.clone(), user.clone());
    let store = SharedTokenStore::holding(data);

    let answer = store.validate(&token);
    assert_eq!(status_of(&answer), 200);
    assert_eq!(answer, Ok(user));
}

#[test]
fn should_fail_check() {
    let store = SharedTokenStore::new();

    let token = "nope";

    let answer = store.validate(token);
    assert_eq!(status_of(&answer), 404);
    assert_eq!(answer, Err(AuthError::NotFound));
}

#[test]
fn shared_login_then_check_resolves_user() {
    let store = SharedTokenStore::new();
    let token = store.issue(login("User", "test")).unwrap();
    assert_eq!(store.validate(&token.token), Ok("User".to_string()));
    assert_eq!(store.validate(&token.token), Ok("User".to_string()));
}

#[test]
fn shared_rejected_login_is_forbidden() {
    let store = SharedTokenStore::new();
    assert_eq!(store.issue(login("User", "wrong")), Err(AuthError::Forbidden));
    assert_eq!(store.issue(login("User", "")), Err(AuthError::Forbidden));
    assert_eq!(store.issue(login("User", "Test")), Err(AuthError::Forbidden));
    assert_eq!(store.issue(login("User", "test ")), Err(AuthError::Forbidden));
}

#[test]
fn shared_logins_draw_distinct_tokens() {
    let store = SharedTokenStore::new();
    let first = store.issue(login("Alice", "test")).unwrap();
    let second = store.issue(login("Bob", "test")).unwrap();
    assert_ne!(first.token, second.token);
    assert_eq!(store.validate(&first.token), Ok("Alice".to_string()));
    assert_eq!(store.validate(&second.token), Ok("Bob".to_string()));
}

#[test]
fn shared_store_keeps_what_it_was_given() {
    let mut data = TokenStore::new();
    data.insert("a".to_string(), "Alice".to_string());
    data.insert("b".to_string(), "Bob".to_string());
    let store = SharedTokenStore::holding(data);
    assert_eq!(store.validate("a"), Ok("Alice".to_string()));
    assert_eq!(store.validate("b"), Ok("Bob".to_string()));
    assert_eq!(store.validate("c"), Err(AuthError::NotFound));
}
