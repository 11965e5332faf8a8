use vstd::prelude::*;

verus! {

/// The memory cost, in KiB, of a new password hash.
pub const HASH_MEMORY_KIB: u32 = 15000;

/// The number of passes of a new password hash.
pub const HASH_ITERATIONS: u32 = 2;

/// The degree of parallelism of a new password hash.
pub const HASH_PARALLELISM: u32 = 1;

/// Whether argon2 accepts `password` against the PHC string `hash`: the string
/// parses, and hashing the password with the salt, algorithm and parameters
/// that it names gives the output that it holds.
pub uninterp spec fn argon2_accepts(hash: Seq<char>, password: Seq<char>) -> bool;

/// Relies on `argon2::PasswordHash::new`, to read the PHC string, and on
/// `PasswordVerifier::verify_password` of `argon2::Argon2`, which hashes the
/// candidate again under the parameters that the string names.
#[verifier::external_body]
fn argon2_verify(hash: &str, password: &str) -> (r: bool)
    ensures
        r == argon2_accepts(hash@, password@),
{
    match argon2::PasswordHash::new(hash) {
        Ok(h) => argon2::PasswordVerifier::verify_password(
            &argon2::Argon2::default(),
            password.as_bytes(),
            &h,
        ).is_ok(),
        Err(_) => false,
    }
}

/// Relies on `argon2::PasswordHasher::hash_password` with Argon2id, version
/// 0x13 and a fresh random salt: the PHC string it gives is one that the
/// verifier accepts for the same password. `None` where the parameters are
/// refused.
#[verifier::external_body]
fn argon2_hash(password: &str, m_cost: u32, t_cost: u32, p_cost: u32) -> (r: Option<String>)
    ensures
        r matches Some(h) ==> argon2_accepts(h@, password@),
{
    let salt = argon2::password_hash::SaltString::generate(&mut rand::thread_rng());
    let params = argon2::Params::new(m_cost, t_cost, p_cost, None).ok()?;
    let hasher = argon2::Argon2::new(argon2::Algorithm::Argon2id, argon2::Version::V0x13, params);
    match argon2::PasswordHasher::hash_password(&hasher, password.as_bytes(), &salt) {
        Ok(h) => Some(h.to_string()),
        Err(_) => None,
    }
}

/// Why a password hash could not be made or did not match.
#[derive(Debug, PartialEq, Eq, Structural)]
pub enum PasswordHashError {
    /// The hasher failed.
    HashingFailed,
    /// The candidate does not match the stored hash, or the hash is malformed.
    Mismatch,
}

/// Hashes `password` for storage, under a fresh salt.
pub fn compute_password_hash(password: String) -> (r: Result<String, PasswordHashError>)
    ensures
        r matches Ok(h) ==> argon2_accepts(h@, password@),
        r matches Err(e) ==> e == PasswordHashError::HashingFailed,
{
    match argon2_hash(password.as_str(), HASH_MEMORY_KIB, HASH_ITERATIONS, HASH_PARALLELISM) {
        Some(h) => Ok(h),
        None => Err(PasswordHashError::HashingFailed),
    }
}

/// Checks `password_candidate` against a stored hash.
pub fn verify_password_hash(expected_password_hash: String, password_candidate: String) -> (r:
    Result<(), PasswordHashError>)
    ensures
        r is Ok <==> argon2_accepts(expected_password_hash@, password_candidate@),
        r matches Err(e) ==> e == PasswordHashError::Mismatch,
{
    if argon2_verify(expected_password_hash.as_str(), password_candidate.as_str()) {
        Ok(())
    } else {
        Err(PasswordHashError::Mismatch)
    }
}

} // verus!
