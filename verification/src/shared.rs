//! A token store behind a lock, for request handlers that run side by side.
//!
//! Every operation takes the lock once, works on the store it guards and gives
//! the lock back, so a login or a query is one atomic step and the laws of
//! [`crate::laws`] hold of the order in which the lock lets handlers through.
//! What the store holds can change between two calls, so the contracts here
//! say what holds of every store that the lock may hand over.

use crate::auth::accepts;
use crate::auth::issue_with;
use crate::auth::password_accepted;
use crate::auth::validate_held;
use crate::auth::Credentials;
use crate::auth::Token;
use crate::error::AuthError;
use crate::store::TokenStore;
use crate::token_id::fresh_token_id;
use crate::token_id::is_token_text;
use std::sync::Mutex;
use std::sync::MutexGuard;
use vstd::prelude::*;

verus! {

/// `std::sync::Mutex`, carried as an opaque value: nothing is known of what it guards now.
#[verifier::external_type_specification]
#[verifier::external_body]
#[verifier::reject_recursive_types(T)]
pub struct ExMutex<T: ?Sized>(Mutex<T>);

/// `std::sync::MutexGuard`, carried as an opaque value.
#[verifier::external_type_specification]
#[verifier::external_body]
#[verifier::reject_recursive_types(T)]
pub struct ExMutexGuard<'a, T: ?Sized + 'a>(MutexGuard<'a, T>);

/// The entries of the store that the lock `cell` was created around.
///
/// This is fixed when the lock is made. It is not what the lock guards now:
/// that changes with every login and is not a value a contract can speak of.
pub uninterp spec fn guarded_at_first(cell: Mutex<TokenStore>) -> Map<Seq<char>, Seq<char>>;

/// Puts `store` behind a new lock.
///
/// Calls `std::sync::Mutex::new`. Trusted: the lock is created around the
/// value it is given, so the entries it starts out with are those of `store`.
#[verifier::external_body]
fn lock_around(store: TokenStore) -> (cell: Mutex<TokenStore>)
    ensures
        guarded_at_first(cell) == store@,
{
    Mutex::new(store)
}

/// Waits for the lock and takes it; `None` if the lock is poisoned.
///
/// Calls `std::sync::Mutex::lock`. Nothing is claimed of the result: whether
/// the lock is poisoned is decided by what other threads did. The call waits
/// forever or panics if the calling thread already holds the lock; no guard
/// leaves this module and no function here takes the lock while it holds a
/// guard, so that does not arise.
#[verifier::external_body]
fn acquire<'a>(cell: &'a Mutex<TokenStore>) -> (guard: Option<MutexGuard<'a, TokenStore>>) {
    match cell.lock() {
        Ok(guard) => Some(guard),
        Err(_) => None,
    }
}

/// The store that `guard` gives access to, for reading.
///
/// Calls `Deref::deref` of `std::sync::MutexGuard`. Nothing is claimed of the
/// store: other handlers may have changed it since the last look.
#[verifier::external_body]
fn held<'a, 'b>(guard: &'a MutexGuard<'b, TokenStore>) -> (store: &'a TokenStore) {
    std::ops::Deref::deref(guard)
}

/// The store that `guard` gives access to, for writing.
///
/// Calls `DerefMut::deref_mut` of `std::sync::MutexGuard`. Nothing is claimed
/// of the store as it is found.
#[verifier::external_body]
fn held_mut<'a, 'b>(guard: &'a mut MutexGuard<'b, TokenStore>) -> (store: &'a mut TokenStore) {
    std::ops::DerefMut::deref_mut(guard)
}

/// A [`TokenStore`] that many handlers share for the life of the process.
pub struct SharedTokenStore {
    cell: Mutex<TokenStore>,
}

impl SharedTokenStore {
    /// The entries that this store was created with, before any login.
    pub closed spec fn starts_with(&self) -> Map<Seq<char>, Seq<char>> {
        guarded_at_first(self.cell)
    }

    /// A shared store with nothing on record.
    pub fn new() -> (shared: SharedTokenStore)
        ensures
            shared.starts_with() == Map::<Seq<char>, Seq<char>>::empty(),
    {
        SharedTokenStore::holding(TokenStore::new())
    }

    /// A shared store that starts out with what `store` has on record.
    pub fn holding(store: TokenStore) -> (shared: SharedTokenStore)
        ensures
            shared.starts_with() == store@,
    {
        SharedTokenStore { cell: lock_around(store) }
    }

    /// Logs a client in, as [`crate::auth::issue`] does, on the store behind the lock.
    ///
    /// The password is checked before the lock is asked for, so a rejected
    /// login never waits. A poisoned lock turns an accepted login into
    /// [`AuthError::Internal`].
    pub fn issue(&self, credentials: Credentials) -> (answer: Result<Token, AuthError>)
        ensures
            !password_accepted(credentials.password@) ==> answer == Err::<Token, AuthError>(
                AuthError::Forbidden,
            ),
            password_accepted(credentials.password@) ==> match answer {
                Ok(token) => token.user@ == credentials.username@ && is_token_text(token.token@),
                Err(e) => e == AuthError::Internal,
            },
    {
        if !accepts(&credentials.password) {
            return Err(AuthError::Forbidden);
        }
        match acquire(&self.cell) {
            Some(mut guard) => {
                let token_id = fresh_token_id();
                issue_with(held_mut(&mut guard), credentials, token_id)
            },
            None => Err(AuthError::Internal),
        }
    }

    /// Resolves `token_id` on the store behind the lock: takes the lock and
    /// answers as [`crate::auth::validate_held`] does for what the lock gave.
    ///
    /// A poisoned lock is reported as [`AuthError::Internal`], never as an
    /// unknown token. Which store the lock hands over is decided by the logins
    /// that went before, so the contract says what holds of every answer.
    pub fn validate(&self, token_id: &str) -> (answer: Result<String, AuthError>)
        ensures
            answer is Err ==> answer->Err_0 == AuthError::NotFound || answer->Err_0
                == AuthError::Internal,
    {
        match acquire(&self.cell) {
            Some(guard) => validate_held(Some(held(&guard)), token_id),
            None => validate_held(None, token_id),
        }
    }
}

} // verus!
