//! A store of two-factor challenges in memory.

use vstd::prelude::*;
use vstd::hash_map::StringHashMap;

use crate::domain::data_stores::{TwoFACodeStore, TwoFACodeStoreError};
use crate::domain::email::Email;
use crate::domain::login_attempt_id::LoginAttemptId;
use crate::domain::two_fa_code::TwoFACode;

verus! {

/// What a list of challenges comes to when they are put into an empty
/// store one after the other: for each address the last one stays.
pub open spec fn collected(entries: Seq<(Email, LoginAttemptId, TwoFACode)>) -> Map<
    Seq<char>,
    (Seq<char>, Seq<char>),
>
    decreases entries.len(),
{
    if entries.len() == 0 {
        Map::empty()
    } else {
        collected(entries.drop_last()).insert(
            entries.last().0@,
            (entries.last().1@, entries.last().2@),
        )
    }
}

/// Challenges in a hash map, each under the text of its address. Nothing
/// leaves it unless it is taken away.
pub struct HashmapTwoFACodeStore {
    codes: StringHashMap<(LoginAttemptId, TwoFACode)>,
}

impl HashmapTwoFACodeStore {
    /// A store that holds no challenge.
    pub fn new() -> (store: Self)
        ensures
            store.codes() == Map::<Seq<char>, (Seq<char>, Seq<char>)>::empty(),
    {
        let store = HashmapTwoFACodeStore { codes: StringHashMap::new() };
        assert(store.codes() =~= Map::<Seq<char>, (Seq<char>, Seq<char>)>::empty());
        store
    }

    /// A store that holds the given challenges, a later one in place of an
    /// earlier one for the same address.
    pub fn new_with_codes(codes: Vec<(Email, LoginAttemptId, TwoFACode)>) -> (store: Self)
        ensures
            store.codes() == collected(codes@),
    {
        let mut store = Self::new();
        let mut i: usize = 0;
        while i < codes.len()
            invariant
                i <= codes.len(),
                store.codes() == collected(codes@.subrange(0, i as int)),
            decreases codes.len() - i,
        {
            let entry = &codes[i];
            proof {
                assert(codes@.subrange(0, i + 1).drop_last() =~= codes@.subrange(0, i as int));
            }
            store.put(entry.0.as_ref().to_owned(), entry.1.clone(), entry.2.clone());
            i += 1;
        }
        assert(codes@.subrange(0, codes.len() as int) =~= codes@);
        store
    }

    /// Puts a challenge under `key`.
    fn put(&mut self, key: String, login_attempt_id: LoginAttemptId, code: TwoFACode)
        ensures
            final(self).codes() == old(self).codes().insert(key@, (login_attempt_id@, code@)),
    {
        let ghost before = self.codes@;
        let ghost id = login_attempt_id@;
        let ghost digits = code@;
        self.codes.insert(key, (login_attempt_id, code));
        assert(self.codes() =~= before.map_values(
            |pair: (LoginAttemptId, TwoFACode)| (pair.0@, pair.1@),
        ).insert(key@, (id, digits)));
    }
}

impl Default for HashmapTwoFACodeStore {
    fn default() -> (store: Self)
        ensures
            store.codes() == Map::<Seq<char>, (Seq<char>, Seq<char>)>::empty(),
    {
        Self::new()
    }
}

impl TwoFACodeStore for HashmapTwoFACodeStore {
    closed spec fn codes(&self) -> Map<Seq<char>, (Seq<char>, Seq<char>)> {
        self.codes@.map_values(|pair: (LoginAttemptId, TwoFACode)| (pair.0@, pair.1@))
    }

    open spec fn dependable(&self) -> bool {
        true
    }

    fn add_code(&mut self, email: Email, login_attempt_id: LoginAttemptId, code: TwoFACode) -> (res:
        Result<(), TwoFACodeStoreError>) {
        self.put(email.as_ref().to_owned(), login_attempt_id, code);
        Ok(())
    }

    fn remove_code(&mut self, email: &Email) -> (res: Result<(), TwoFACodeStoreError>) {
        if !self.codes.contains_key(email.as_ref()) {
            return Err(TwoFACodeStoreError::LoginAttemptIdNotFound);
        }
        let ghost before = self.codes@;
        self.codes.remove(email.as_ref());
        assert(self.codes() =~= before.map_values(
            |pair: (LoginAttemptId, TwoFACode)| (pair.0@, pair.1@),
        ).remove(email@));
        Ok(())
    }

    fn get_code(&self, email: &Email) -> (res: Result<
        (LoginAttemptId, TwoFACode),
        TwoFACodeStoreError,
    >) {
        match self.codes.get(email.as_ref()) {
            Some(pair) => Ok((pair.0.clone(), pair.1.clone())),
            None => Err(TwoFACodeStoreError::LoginAttemptIdNotFound),
        }
    }
}

} // verus!
