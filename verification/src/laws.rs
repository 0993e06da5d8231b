//! What holds of every run of logins and queries against one store.
//!
//! The laws speak of the store's model and of the identifiers that were drawn,
//! so they cover every order in which a lock may let handlers through.

use crate::auth::issue_result;
use crate::auth::password_accepted;
use crate::auth::store_after_issue;
use crate::auth::validate_result;
use crate::auth::CredentialsView;
use crate::auth::TokenView;
use crate::error::AuthError;
use vstd::prelude::*;

verus! {

/// One login: the credentials presented and the identifier drawn for it.
pub struct Login {
    pub credentials: CredentialsView,
    pub token_id: Seq<char>,
}

/// The store that is left when `logins` are decided against `store`, first to last.
pub open spec fn replay(store: Map<Seq<char>, Seq<char>>, logins: Seq<Login>) -> Map<
    Seq<char>,
    Seq<char>,
>
    decreases logins.len(),
{
    if logins.len() == 0 {
        store
    } else {
        store_after_issue(
            replay(store, logins.drop_last()),
            logins.last().credentials,
            logins.last().token_id,
        )
    }
}

/// Whether one of `logins` succeeded and handed out `token_id`.
pub open spec fn was_issued(logins: Seq<Login>, token_id: Seq<char>) -> bool {
    exists|i: int|
        0 <= i < logins.len() && password_accepted(#[trigger] logins[i].credentials.password)
            && logins[i].token_id == token_id
}

/// A login with the right password succeeds, whatever identifier is drawn, and
/// its token names the user who logged in.
pub proof fn law_accepted_login_succeeds(credentials: CredentialsView, token_id: Seq<char>)
    requires
        password_accepted(credentials.password),
    ensures
        issue_result(credentials, token_id) == Ok::<TokenView, AuthError>(
            TokenView { token: token_id, user: credentials.username },
        ),
{
}

/// A login with any other password is forbidden and leaves the store, and so
/// its size, as it was.
pub proof fn law_rejected_login_changes_nothing(
    store: Map<Seq<char>, Seq<char>>,
    credentials: CredentialsView,
    token_id: Seq<char>,
)
    requires
        !password_accepted(credentials.password),
    ensures
        issue_result(credentials, token_id) == Err::<TokenView, AuthError>(AuthError::Forbidden),
        store_after_issue(store, credentials, token_id) == store,
        store_after_issue(store, credentials, token_id).len() == store.len(),
{
}

/// Right after a successful login its token resolves to the user who logged in.
pub proof fn law_issued_token_validates(
    store: Map<Seq<char>, Seq<char>>,
    credentials: CredentialsView,
    token_id: Seq<char>,
)
    requires
        password_accepted(credentials.password),
    ensures
        validate_result(store_after_issue(store, credentials, token_id), token_id) == Ok::<
            Seq<char>,
            AuthError,
        >(credentials.username),
{
}

/// Logins do not change the answer for an identifier that none of them handed out.
pub proof fn law_logins_keep_other_tokens(
    store: Map<Seq<char>, Seq<char>>,
    logins: Seq<Login>,
    token_id: Seq<char>,
)
    requires
        !was_issued(logins, token_id),
    ensures
        validate_result(replay(store, logins), token_id) == validate_result(store, token_id),
    decreases logins.len(),
{
    if logins.len() > 0 {
        let earlier = logins.drop_last();
        let last_index = logins.len() - 1;
        assert forall|i: int| 0 <= i < earlier.len() implies !(password_accepted(
            #[trigger] earlier[i].credentials.password,
        ) && earlier[i].token_id == token_id) by {
            assert(earlier[i] == logins[i]);
        }
        law_logins_keep_other_tokens(store, earlier, token_id);
        assert(logins[last_index] == logins.last());
    }
}

/// A string that no login handed out is unknown to a store that started empty
/// and was filled by logins alone.
pub proof fn law_unissued_token_is_not_found(logins: Seq<Login>, token_id: Seq<char>)
    requires
        !was_issued(logins, token_id),
    ensures
        validate_result(replay(Map::empty(), logins), token_id) == Err::<Seq<char>, AuthError>(
            AuthError::NotFound,
        ),
{
    law_logins_keep_other_tokens(Map::empty(), logins, token_id);
}

/// Two successful logins whose identifiers differ both stay resolvable, each to
/// its own user, and the store they leave does not depend on which came first.
pub proof fn law_two_logins_both_validate(
    store: Map<Seq<char>, Seq<char>>,
    first: Login,
    second: Login,
)
    requires
        password_accepted(first.credentials.password),
        password_accepted(second.credentials.password),
        first.token_id != second.token_id,
    ensures
        validate_result(replay(store, seq![first, second]), first.token_id) == Ok::<
            Seq<char>,
            AuthError,
        >(first.credentials.username),
        validate_result(replay(store, seq![first, second]), second.token_id) == Ok::<
            Seq<char>,
            AuthError,
        >(second.credentials.username),
        replay(store, seq![first, second]) == replay(store, seq![second, first]),
{
    lemma_replay_two(store, first, second);
    lemma_replay_two(store, second, first);
    assert(store.insert(first.token_id, first.credentials.username).insert(
        second.token_id,
        second.credentials.username,
    ) =~= store.insert(second.token_id, second.credentials.username).insert(
        first.token_id,
        first.credentials.username,
    ));
}

/// A query changes nothing, so asking again gives the same answer; and a token
/// that resolves keeps resolving to the same user while later logins draw
/// other identifiers.
pub proof fn law_valid_token_keeps_its_user(
    store: Map<Seq<char>, Seq<char>>,
    later: Seq<Login>,
    token_id: Seq<char>,
)
    requires
        store.contains_key(token_id),
        !was_issued(later, token_id),
    ensures
        validate_result(replay(store, later), token_id) == Ok::<Seq<char>, AuthError>(
            store[token_id],
        ),
{
    law_logins_keep_other_tokens(store, later, token_id);
}

/// Replaying two logins is deciding the first and then the second.
proof fn lemma_replay_two(store: Map<Seq<char>, Seq<char>>, first: Login, second: Login)
    ensures
        replay(store, seq![first, second]) == store_after_issue(
            store_after_issue(store, first.credentials, first.token_id),
            second.credentials,
            second.token_id,
        ),
{
    let both = seq![first, second];
    let one = both.drop_last();
    assert(one =~= seq![first]);
    assert(one.drop_last() =~= Seq::<Login>::empty());
    assert(replay(store, one.drop_last()) == store);
    assert(one.last() == first);
    assert(replay(store, one) == store_after_issue(store, first.credentials, first.token_id));
    assert(both.last() == second);
}

} // verus!
