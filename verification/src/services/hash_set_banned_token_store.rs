//! A store of banned tokens in memory.

use vstd::prelude::*;
use vstd::hash_set::StringHashSet;

use crate::domain::data_stores::{BannedTokenStore, BannedTokenStoreError};

verus! {

/// Banned tokens in a hash set. Nothing leaves it while the process lives.
pub struct HashSetBannedTokenStore {
    tokens: StringHashSet,
}

impl Default for HashSetBannedTokenStore {
    fn default() -> (store: Self)
        ensures
            store.tokens() == Set::<Seq<char>>::empty(),
    {
        HashSetBannedTokenStore { tokens: StringHashSet::new() }
    }
}

impl BannedTokenStore for HashSetBannedTokenStore {
    closed spec fn tokens(&self) -> Set<Seq<char>> {
        self.tokens@
    }

    open spec fn dependable(&self) -> bool {
        true
    }

    fn add_token(&mut self, token: String) -> (res: Result<(), BannedTokenStoreError>) {
        self.tokens.insert(token);
        Ok(())
    }

    fn contains_token(&self, token: &str) -> (res: Result<bool, BannedTokenStoreError>) {
        Ok(self.tokens.get(token).is_some())
    }
}

} // verus!
