//! The in-memory credential store: one user per email.

use vstd::prelude::*;
use crate::domain::data_stores::{UserStore, UserStoreError};
use crate::domain::email::Email;
use crate::domain::password::Password;
use crate::domain::user::{User, UserModel};
use crate::table::EmailTable;

verus! {

/// Volatile credential store backed by an in-memory email-keyed table.
pub struct HashmapUserStore {
    users: EmailTable<User>,
}

impl Default for HashmapUserStore {
    /// An empty store.
    fn default() -> (r: HashmapUserStore)
        ensures
            r.users() == Map::<Seq<char>, UserModel>::empty(),
    {
        HashmapUserStore { users: EmailTable::new() }
    }
}

impl UserStore for HashmapUserStore {
    closed spec fn users(&self) -> Map<Seq<char>, UserModel> {
        self.users@
    }

    fn add_user(&mut self, user: User) -> (r: Result<(), UserStoreError>) {
        let exists = self.users.get(&user.email).is_some();
        if exists {
            return Err(UserStoreError::UserAlreadyExists);
        }
        let key = user.email.clone();
        self.users.insert(key, user);
        Ok(())
    }

    fn get_user(&self, email: &Email) -> (r: Result<User, UserStoreError>) {
        match self.users.get(email) {
            Some(u) => Ok(u.clone()),
            None => Err(UserStoreError::UserNotFound),
        }
    }

    fn validate_user(&self, email: &Email, password: &Password) -> (r: Result<
        (),
        UserStoreError,
    >) {
        match self.users.get(email) {
            None => Err(UserStoreError::UserNotFound),
            Some(u) => {
                if u.password == *password {
                    Ok(())
                } else {
                    Err(UserStoreError::InvalidCredentials)
                }
            },
        }
    }
}

} // verus!
