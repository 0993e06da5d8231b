//! Issuing tokens against credentials and resolving tokens back to users.

use crate::error::AuthError;
use crate::store::TokenStore;
use crate::token_id::fresh_token_id;
use crate::token_id::is_token_text;
use vstd::prelude::*;

verus! {

/// The password that every login must present.
///
/// A stand-in for a real credential check, not a security mechanism.
pub const REFERENCE_PASSWORD: &'static str = "test";

/// What a client presents to log in. Dropped once the login is decided.
#[derive(Debug, PartialEq, Eq)]
pub struct Credentials {
    pub username: String,
    pub password: String,
}

/// The text of a [`Credentials`] value.
pub struct CredentialsView {
    pub username: Seq<char>,
    pub password: Seq<char>,
}

impl View for Credentials {
    type V = CredentialsView;

    open spec fn view(&self) -> CredentialsView {
        CredentialsView { username: self.username@, password: self.password@ }
    }
}

/// An issued token: the opaque identifier and the user it stands for.
#[derive(Debug, PartialEq, Eq)]
pub struct Token {
    pub token: String,
    pub user: String,
}

/// The text of a [`Token`] value.
pub struct TokenView {
    pub token: Seq<char>,
    pub user: Seq<char>,
}

impl View for Token {
    type V = TokenView;

    open spec fn view(&self) -> TokenView {
        TokenView { token: self.token@, user: self.user@ }
    }
}

/// Whether `password` is the one that logins must present.
pub open spec fn password_accepted(password: Seq<char>) -> bool {
    password == REFERENCE_PASSWORD@
}

/// What a login with `credentials` is answered with when `token_id` is the
/// identifier drawn for it.
pub open spec fn issue_result(credentials: CredentialsView, token_id: Seq<char>) -> Result<
    TokenView,
    AuthError,
> {
    if password_accepted(credentials.password) {
        Ok(TokenView { token: token_id, user: credentials.username })
    } else {
        Err(AuthError::Forbidden)
    }
}

/// The store that a login with `credentials` leaves behind when `token_id` is
/// the identifier drawn for it.
pub open spec fn store_after_issue(
    store: Map<Seq<char>, Seq<char>>,
    credentials: CredentialsView,
    token_id: Seq<char>,
) -> Map<Seq<char>, Seq<char>> {
    if password_accepted(credentials.password) {
        store.insert(token_id, credentials.username)
    } else {
        store
    }
}

/// What a query for `token_id` is answered with by a store that holds `store`.
pub open spec fn validate_result(store: Map<Seq<char>, Seq<char>>, token_id: Seq<char>) -> Result<
    Seq<char>,
    AuthError,
> {
    if store.contains_key(token_id) {
        Ok(store[token_id])
    } else {
        Err(AuthError::NotFound)
    }
}

/// Decides whether `password` is the one that logins must present.
pub fn accepts(password: &String) -> (ok: bool)
    ensures
        ok == password_accepted(password@),
{
    let reference = REFERENCE_PASSWORD.to_owned();
    *password == reference
}

/// Decides a login for which the identifier `token_id` has been drawn.
///
/// With the right password the login succeeds: `token_id` is recorded for the
/// user, over an earlier entry under the same identifier if there is one, and
/// handed back with the user's name. With any other password the login is
/// forbidden and the store is left as it was.
pub fn issue_with(store: &mut TokenStore, credentials: Credentials, token_id: String) -> (answer:
    Result<Token, AuthError>)
    ensures
        answer is Ok <==> password_accepted(credentials.password@),
        match answer {
            Ok(token) => Ok::<TokenView, AuthError>(token@) == issue_result(
                credentials@,
                token_id@,
            ),
            Err(e) => Err::<TokenView, AuthError>(e) == issue_result(credentials@, token_id@),
        },
        final(store)@ == store_after_issue(old(store)@, credentials@, token_id@),
{
    if !accepts(&credentials.password) {
        return Err(AuthError::Forbidden);
    }
    store.insert(token_id.clone(), credentials.username.clone());
    Ok(Token { token: token_id, user: credentials.username })
}

/// Logs a client in: checks the credentials, draws a fresh identifier and
/// records it for the user.
///
/// The login succeeds exactly when the password is the right one. The token
/// then carries the user's name and an identifier in UUID text form, and the
/// store holds that identifier for the user. No identifier is drawn for a
/// rejected login.
pub fn issue(store: &mut TokenStore, credentials: Credentials) -> (answer: Result<Token, AuthError>)
    ensures
        answer is Ok <==> password_accepted(credentials.password@),
        match answer {
            Ok(token) => {
                &&& is_token_text(token.token@)
                &&& Ok::<TokenView, AuthError>(token@) == issue_result(credentials@, token.token@)
                &&& final(store)@ == store_after_issue(old(store)@, credentials@, token.token@)
            },
            Err(e) => {
                &&& !password_accepted(credentials.password@)
                &&& e == AuthError::Forbidden
                &&& final(store)@ == old(store)@
            },
        },
{
    if !accepts(&credentials.password) {
        return Err(AuthError::Forbidden);
    }
    let token_id = fresh_token_id();
    issue_with(store, credentials, token_id)
}

/// Resolves `token_id` to the user it was issued to.
///
/// Answers with the user if the store knows the identifier and with
/// [`AuthError::NotFound`] if it does not. The store is only read.
pub fn validate(store: &TokenStore, token_id: &str) -> (answer: Result<String, AuthError>)
    ensures
        answer is Ok <==> store@.contains_key(token_id@),
        match answer {
            Ok(user) => Ok::<Seq<char>, AuthError>(user@) == validate_result(store@, token_id@),
            Err(e) => Err::<Seq<char>, AuthError>(e) == validate_result(store@, token_id@),
        },
{
    match store.lookup(token_id) {
        Some(user) => Ok(user.clone()),
        None => Err(AuthError::NotFound),
    }
}

/// Answers a query for `token_id` with what taking the store's lock gave:
/// the store, or nothing where the lock is poisoned.
///
/// With a store in hand the answer is that of [`validate`]. Without one it is
/// [`AuthError::Internal`], whatever the identifier, so that a broken lock is
/// never mistaken for an unknown token.
pub fn validate_held(store: Option<&TokenStore>, token_id: &str) -> (answer: Result<
    String,
    AuthError,
>)
    ensures
        match store {
            Some(held) => match answer {
                Ok(user) => Ok::<Seq<char>, AuthError>(user@) == validate_result(
                    held@,
                    token_id@,
                ),
                Err(e) => Err::<Seq<char>, AuthError>(e) == validate_result(held@, token_id@),
            },
            None => answer == Err::<String, AuthError>(AuthError::Internal),
        },
{
    match store {
        Some(held) => validate(held, token_id),
        None => Err(AuthError::Internal),
    }
}

} // verus!
