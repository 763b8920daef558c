//! A user store in memory.

use vstd::prelude::*;
use vstd::hash_map::StringHashMap;

use crate::domain::data_stores::{UserStore, UserStoreError};
use crate::domain::email::Email;
use crate::domain::password::Password;
use crate::domain::user::{User, UserView};

verus! {

/// Users in a hash map, each under the text of their address. Passwords are
/// kept as they were given and compared letter by letter.
pub struct HashmapUserStore {
    users: StringHashMap<User>,
}

impl HashmapUserStore {
    /// A store that holds no user.
    pub fn new() -> (store: Self)
        ensures
            store.users() == Map::<Seq<char>, UserView>::empty(),
    {
        let store = HashmapUserStore { users: StringHashMap::new() };
        assert(store.users() =~= Map::<Seq<char>, UserView>::empty());
        store
    }
}

impl Default for HashmapUserStore {
    fn default() -> (store: Self)
        ensures
            store.users() == Map::<Seq<char>, UserView>::empty(),
    {
        Self::new()
    }
}

impl UserStore for HashmapUserStore {
    closed spec fn users(&self) -> Map<Seq<char>, UserView> {
        self.users@.map_values(|user: User| user@)
    }

    open spec fn dependable(&self) -> bool {
        true
    }

    open spec fn accepts(kept: Seq<char>, candidate: Seq<char>) -> bool {
        kept == candidate
    }

    fn add_user(&mut self, user: User) -> (res: Result<(), UserStoreError>)
        ensures
            res is Ok ==> final(self).users() == old(self).users().insert(user.email@, user@),
    {
        if self.users.contains_key(user.email.as_ref()) {
            return Err(UserStoreError::UserAlreadyExists);
        }
        let key = user.email.as_ref().to_owned();
        let ghost before = self.users@;
        let ghost added = user@;
        self.users.insert(key, user);
        proof {
            assert(self.users() =~= before.map_values(|user: User| user@).insert(
                added.email,
                added,
            ));
            assert(self.users().remove(added.email) =~= before.map_values(|user: User| user@));
        }
        Ok(())
    }

    fn get_user(&self, email: &Email) -> (res: Result<User, UserStoreError>) {
        match self.users.get(email.as_ref()) {
            Some(user) => Ok(user.clone()),
            None => Err(UserStoreError::UserNotFound),
        }
    }

    fn validate_user(&self, email: &Email, password: &Password) -> (res: Result<
        (),
        UserStoreError,
    >) {
        let user = match self.get_user(email) {
            Ok(user) => user,
            Err(e) => { return Err(e); },
        };
        if user.password != *password {
            return Err(UserStoreError::InvalidCredentials);
        }
        Ok(())
    }
}

} // verus!
