//! The registry of issued tokens.

use vstd::hash_map::StringHashMap;
use vstd::prelude::*;

verus! {

/// An in-memory registry that maps a token identifier to the user it was issued to.
///
/// Its model is a finite map from identifier text to user text. An identifier
/// occurs at most once; entries are only ever added.
pub struct TokenStore {
    entries: StringHashMap<String>,
}

impl View for TokenStore {
    type V = Map<Seq<char>, Seq<char>>;

    closed spec fn view(&self) -> Map<Seq<char>, Seq<char>> {
        self.entries@.map_values(|user: String| user@)
    }
}

impl TokenStore {
    /// An empty store.
    pub fn new() -> (store: TokenStore)
        ensures
            store@ == Map::<Seq<char>, Seq<char>>::empty(),
    {
        let store = TokenStore { entries: StringHashMap::new() };
        assert(store@ =~= Map::<Seq<char>, Seq<char>>::empty());
        store
    }

    /// Records that `token_id` was issued to `user`.
    ///
    /// An identifier that is already present is overwritten without notice:
    /// identifiers are drawn at random, so a caller is not expected to hit one twice.
    pub fn insert(&mut self, token_id: String, user: String)
        ensures
            final(self)@ == old(self)@.insert(token_id@, user@),
    {
        self.entries.insert(token_id, user);
        assert(self@ =~= old(self)@.insert(token_id@, user@));
    }

    /// The user that `token_id` was issued to, if the store knows the identifier.
    pub fn lookup(&self, token_id: &str) -> (found: Option<&String>)
        ensures
            match found {
                Some(user) => self@.contains_key(token_id@) && user@ == self@[token_id@],
                None => !self@.contains_key(token_id@),
            },
    {
        self.entries.get(token_id)
    }

    /// The number of identifiers on record.
    pub fn len(&self) -> (n: usize)
        ensures
            n == self@.len(),
    {
        assert(self@.dom() =~= self.entries@.dom());
        self.entries.len()
    }
}

} // verus!
