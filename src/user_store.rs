use vstd::prelude::*;
use vstd::hash_map::StringHashMap;

use crate::email::Email;
use crate::password::Password;
use crate::user::User;

verus! {

/// Why a user store refused a request.
#[derive(Debug, PartialEq, Eq, Structural)]
pub enum UserStoreError {
    UserAlreadyExists,
    UserNotFound,
    InvalidCredentials,
    UnexpectedError,
}

/// What checking `password` for `email` gives against the registered users.
pub open spec fn credentials_outcome(
    users: Map<Seq<char>, User>,
    email: Seq<char>,
    password: Seq<char>,
) -> Result<(), UserStoreError> {
    if !users.contains_key(email) {
        Err(UserStoreError::UserNotFound)
    } else if users[email].password@ != password {
        Err(UserStoreError::InvalidCredentials)
    } else {
        Ok(())
    }
}

/// A store of registered principals. A backend that can fail reports it as
/// `UnexpectedError`, kept apart from "not found".
pub trait UserStore {
    /// Each registered address with its user.
    spec fn users(&self) -> Map<Seq<char>, User>;

    /// Whether the backend answers every request; an in-memory one does.
    spec fn available(&self) -> bool;

    /// Registers `user`, unless its address is taken.
    fn add_user(&mut self, user: User) -> (r: Result<(), UserStoreError>)
        ensures
            r is Ok ==> !old(self).users().contains_key(user.email@) && final(self).users()
                == old(self).users().insert(user.email@, user),
            r matches Err(e) ==> final(self).users() == old(self).users() && (e
                == UserStoreError::UnexpectedError || (e == UserStoreError::UserAlreadyExists
                && old(self).users().contains_key(user.email@))),
            old(self).available() ==> (r is Ok <==> !old(self).users().contains_key(user.email@)),
            old(self).available() ==> r != Err::<(), UserStoreError>(
                UserStoreError::UnexpectedError,
            ),
            final(self).available() == old(self).available(),
    ;

    /// The user registered under `email`.
    fn get_user(&self, email: &Email) -> (r: Result<User, UserStoreError>)
        ensures
            r matches Ok(u) ==> self.users().contains_key(email@) && u.email@
                == self.users()[email@].email@ && u.password@ == self.users()[email@].password@
                && u.requires_2fa == self.users()[email@].requires_2fa,
            r matches Err(e) ==> e == UserStoreError::UnexpectedError || (e
                == UserStoreError::UserNotFound && !self.users().contains_key(email@)),
            self.available() ==> (r is Ok <==> self.users().contains_key(email@)),
            self.available() ==> (r matches Err(e) ==> e == UserStoreError::UserNotFound),
    ;

    /// Checks `password` against the one registered for `email`.
    fn validate_user(&self, email: &Email, password: &Password) -> (r: Result<(), UserStoreError>)
        ensures
            r == credentials_outcome(self.users(), email@, password@) || r == Err::<
                (),
                UserStoreError,
            >(UserStoreError::UnexpectedError),
            self.available() ==> r == credentials_outcome(self.users(), email@, password@),
    ;
}

/// Registered users held in memory, keyed by address.
pub struct HashMapUserStore {
    users: StringHashMap<User>,
}

impl HashMapUserStore {
    /// An empty store.
    pub fn new() -> (r: HashMapUserStore)
        ensures
            r.users() == Map::<Seq<char>, User>::empty(),
    {
        HashMapUserStore { users: StringHashMap::new() }
    }
}

impl UserStore for HashMapUserStore {
    closed spec fn users(&self) -> Map<Seq<char>, User> {
        self.users@
    }

    open spec fn available(&self) -> bool {
        true
    }

    fn add_user(&mut self, user: User) -> (r: Result<(), UserStoreError>) {
        if self.users.contains_key(user.email.as_ref()) {
            Err(UserStoreError::UserAlreadyExists)
        } else {
            let key = user.email.as_ref().to_owned();
            self.users.insert(key, user);
            Ok(())
        }
    }

    fn get_user(&self, email: &Email) -> (r: Result<User, UserStoreError>) {
        match self.users.get(email.as_ref()) {
            Some(user) => Ok(user.clone()),
            None => Err(UserStoreError::UserNotFound),
        }
    }

    fn validate_user(&self, email: &Email, password: &Password) -> (r: Result<(), UserStoreError>) {
        match self.users.get(email.as_ref()) {
            Some(user) => {
                if user.password == *password {
                    Ok(())
                } else {
                    Err(UserStoreError::InvalidCredentials)
                }
            },
            None => Err(UserStoreError::UserNotFound),
        }
    }
}

impl Default for HashMapUserStore {
    fn default() -> (r: HashMapUserStore)
        ensures
            r.users() == Map::<Seq<char>, User>::empty(),
    {
        HashMapUserStore::new()
    }
}

} // verus!
