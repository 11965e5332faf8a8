use vstd::prelude::*;
use vstd::hash_map::StringHashMap;
use vstd::string::*;

verus! {

/// A failure of a revocation backend.
#[derive(Debug, PartialEq, Eq, Structural)]
pub enum BannedTokenError {
    /// The token could not be recorded.
    AddFailure,
    /// The backend could not be asked.
    LookupFailure,
}

/// Whether `token` is revoked at time `now`, given revocation entries that map
/// each token to the time its entry lapses. An entry lapses with the token's
/// own expiry, after which the token is refused as expired anyway.
pub open spec fn is_banned(entries: Map<Seq<char>, u64>, token: Seq<char>, now: u64) -> bool {
    entries.contains_key(token) && now < entries[token]
}

/// A store of revoked session tokens. A backend that can fail (a network, a
/// timeout) reports it as an error, which is kept apart from "not revoked".
pub trait BannedTokenStore {
    /// Each revoked token, with the time its entry lapses.
    spec fn banned(&self) -> Map<Seq<char>, u64>;

    /// Whether the backend answers every request; an in-memory one does.
    spec fn available(&self) -> bool;

    /// Records `token` as revoked until `expires_at`. Revoking a token again
    /// is no error.
    fn add_token(&mut self, token: String, expires_at: u64) -> (r: Result<(), BannedTokenError>)
        ensures
            r is Ok ==> final(self).banned() == old(self).banned().insert(token@, expires_at),
            r matches Err(e) ==> e == BannedTokenError::AddFailure && final(self).banned() == old(
                self,
            ).banned(),
            old(self).available() ==> r is Ok,
            final(self).available() == old(self).available(),
    ;

    /// Whether `token` is revoked at time `now`.
    fn contains_token(&self, token: &str, now: u64) -> (r: Result<bool, BannedTokenError>)
        ensures
            r matches Ok(b) ==> b == is_banned(self.banned(), token@, now),
            r matches Err(e) ==> e == BannedTokenError::LookupFailure,
            self.available() ==> r is Ok,
    ;
}

/// Revoked tokens held in memory.
pub struct HashsetBannedTokenStore {
    store: StringHashMap<u64>,
}

impl HashsetBannedTokenStore {
    /// An empty store.
    pub fn new() -> (r: HashsetBannedTokenStore)
        ensures
            r.banned() == Map::<Seq<char>, u64>::empty(),
    {
        HashsetBannedTokenStore { store: StringHashMap::new() }
    }
}

impl Default for HashsetBannedTokenStore {
    fn default() -> (r: HashsetBannedTokenStore)
        ensures
            r.banned() == Map::<Seq<char>, u64>::empty(),
    {
        HashsetBannedTokenStore::new()
    }
}

impl BannedTokenStore for HashsetBannedTokenStore {
    closed spec fn banned(&self) -> Map<Seq<char>, u64> {
        self.store@
    }

    open spec fn available(&self) -> bool {
        true
    }

    fn add_token(&mut self, token: String, expires_at: u64) -> (r: Result<(), BannedTokenError>) {
        self.store.insert(token, expires_at);
        Ok(())
    }

    fn contains_token(&self, token: &str, now: u64) -> (r: Result<bool, BannedTokenError>) {
        match self.store.get(token) {
            Some(expires_at) => Ok(now < *expires_at),
            None => Ok(false),
        }
    }
}

/// The key under which a networked store records `token` as revoked: the
/// token behind a prefix that sets revoked tokens apart in a shared store.
pub fn get_key(token: &str) -> (r: String)
    ensures
        r@ == "banned_token:"@ + token@,
{
    let mut key = String::from_str("banned_token:");
    key.append(token);
    key
}

} // verus!
