use vstd::prelude::*;
use vstd::hash_map::StringHashMap;

use crate::email::Email;
use crate::two_fa::{LoginAttemptId, TwoFACode};

verus! {

/// How long a two-factor challenge stays pending, in seconds.
pub const CHALLENGE_TTL_SECONDS: u64 = 600;

/// Why a challenge could not be had.
#[derive(Debug, PartialEq, Eq, Structural)]
pub enum TwoFACodeStoreError {
    /// Nothing is pending for the address, or it has lapsed.
    LoginAttemptIdNotFound,
    /// The store failed.
    UnexpectedError,
}

/// The challenge that is pending for `email` at time `now`, given entries
/// that map an address to its attempt id, code and lapse time. An entry whose
/// lapse time has come counts as absent.
pub open spec fn pending(
    entries: Map<Seq<char>, (Seq<char>, Seq<char>, u64)>,
    email: Seq<char>,
    now: u64,
) -> Option<(Seq<char>, Seq<char>)> {
    if entries.contains_key(email) && now < entries[email].2 {
        Some((entries[email].0, entries[email].1))
    } else {
        None
    }
}

/// The lapse time of a challenge issued at `now`.
pub open spec fn challenge_expiry(now: u64) -> int {
    now + CHALLENGE_TTL_SECONDS
}

/// A store of pending two-factor challenges, at most one per address. A
/// backend that can fail reports it as `UnexpectedError`, kept apart from
/// "not found".
pub trait TwoFACodeStore {
    /// Each address with a stored challenge: attempt id, code, lapse time.
    spec fn entries(&self) -> Map<Seq<char>, (Seq<char>, Seq<char>, u64)>;

    /// Whether the backend answers every request; an in-memory one does.
    spec fn available(&self) -> bool;

    /// Stores a challenge for `email` at time `now`, replacing any earlier
    /// one for that address.
    fn add_code(
        &mut self,
        email: Email,
        login_attempt_id: LoginAttemptId,
        code: TwoFACode,
        now: u64,
    ) -> (r: Result<(), TwoFACodeStoreError>)
        ensures
            r is Ok ==> challenge_expiry(now) <= u64::MAX && final(self).entries() == old(
                self,
            ).entries().insert(email@, (login_attempt_id@, code@, challenge_expiry(now) as u64)),
            r matches Err(e) ==> e == TwoFACodeStoreError::UnexpectedError && final(self).entries()
                == old(self).entries(),
            old(self).available() ==> (r is Ok <==> challenge_expiry(now) <= u64::MAX),
            final(self).available() == old(self).available(),
    ;

    /// Drops the challenge of `email`, if any.
    fn remove_code(&mut self, email: &Email) -> (r: Result<(), TwoFACodeStoreError>)
        ensures
            r is Ok ==> final(self).entries() == old(self).entries().remove(email@),
            r matches Err(e) ==> e == TwoFACodeStoreError::UnexpectedError && final(self).entries()
                == old(self).entries(),
            old(self).available() ==> r is Ok,
            final(self).available() == old(self).available(),
    ;

    /// The challenge pending for `email` at time `now`. It stays stored.
    fn get_code(&self, email: &Email, now: u64) -> (r: Result<
        (LoginAttemptId, TwoFACode),
        TwoFACodeStoreError,
    >)
        ensures
            r matches Ok((i, c)) ==> pending(self.entries(), email@, now) == Some((i@, c@)),
            r matches Err(e) ==> e == TwoFACodeStoreError::UnexpectedError || (e
                == TwoFACodeStoreError::LoginAttemptIdNotFound && pending(
                self.entries(),
                email@,
                now,
            ) is None),
            self.available() ==> (r is Ok <==> pending(self.entries(), email@, now) is Some),
            self.available() ==> (r matches Err(e) ==> e
                == TwoFACodeStoreError::LoginAttemptIdNotFound),
    ;
}

/// Pending two-factor challenges held in memory.
pub struct HashmapTwoFACodeStore {
    codes: StringHashMap<(LoginAttemptId, TwoFACode, u64)>,
}

impl HashmapTwoFACodeStore {
    /// An empty store.
    pub fn new() -> (r: HashmapTwoFACodeStore)
        ensures
            r.entries() == Map::<Seq<char>, (Seq<char>, Seq<char>, u64)>::empty(),
    {
        let r = HashmapTwoFACodeStore { codes: StringHashMap::new() };
        assert(r.entries() =~= Map::<Seq<char>, (Seq<char>, Seq<char>, u64)>::empty());
        r
    }
}

impl TwoFACodeStore for HashmapTwoFACodeStore {
    closed spec fn entries(&self) -> Map<Seq<char>, (Seq<char>, Seq<char>, u64)> {
        Map::new(
            |k: Seq<char>| self.codes@.contains_key(k),
            |k: Seq<char>| (self.codes@[k].0@, self.codes@[k].1@, self.codes@[k].2),
        )
    }

    open spec fn available(&self) -> bool {
        true
    }

    fn add_code(
        &mut self,
        email: Email,
        login_attempt_id: LoginAttemptId,
        code: TwoFACode,
        now: u64,
    ) -> (r: Result<(), TwoFACodeStoreError>) {
        if now > u64::MAX - CHALLENGE_TTL_SECONDS {
            return Err(TwoFACodeStoreError::UnexpectedError);
        }
        let expires_at = now + CHALLENGE_TTL_SECONDS;
        let ghost id = login_attempt_id@;
        let ghost c = code@;
        self.codes.insert(email.as_ref().to_owned(), (login_attempt_id, code, expires_at));
        assert(self.entries() =~= old(self).entries().insert(email@, (id, c, expires_at)));
        Ok(())
    }

    fn remove_code(&mut self, email: &Email) -> (r: Result<(), TwoFACodeStoreError>) {
        self.codes.remove(email.as_ref());
        assert(self.entries() =~= old(self).entries().remove(email@));
        Ok(())
    }

    fn get_code(&self, email: &Email, now: u64) -> (r: Result<
        (LoginAttemptId, TwoFACode),
        TwoFACodeStoreError,
    >) {
        match self.codes.get(email.as_ref()) {
            Some(entry) => {
                if now < entry.2 {
                    Ok((entry.0.clone(), entry.1.clone()))
                } else {
                    Err(TwoFACodeStoreError::LoginAttemptIdNotFound)
                }
            },
            None => Err(TwoFACodeStoreError::LoginAttemptIdNotFound),
        }
    }
}

impl Default for HashmapTwoFACodeStore {
    fn default() -> (r: HashmapTwoFACodeStore)
        ensures
            r.entries() == Map::<Seq<char>, (Seq<char>, Seq<char>, u64)>::empty(),
    {
        HashmapTwoFACodeStore::new()
    }
}

} // verus!
