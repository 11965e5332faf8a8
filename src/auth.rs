use vstd::prelude::*;

use crate::banned_token_store::{is_banned, BannedTokenStore};
use crate::email::Email;

verus! {

/// How long a session token is valid, in seconds.
pub const TOKEN_TTL_SECONDS: u64 = 600;

/// The token that `jsonwebtoken` signs with HS256 and the default header, for
/// the claims `sub` and `exp`, under the key `secret`.
pub uninterp spec fn hs256_token(sub: Seq<char>, exp: int, secret: Seq<char>) -> Seq<char>;

/// The claims `(sub, exp)` that `jsonwebtoken` reads from `token` when its
/// HS256 signature under `secret` holds and its payload has a text `sub`
/// and an integer `exp` that fits `usize`; expiry is not judged here.
pub uninterp spec fn hs256_claims(token: Seq<char>, secret: Seq<char>) -> Option<(Seq<char>, int)>;

/// Whether a text has the shape of a compact JWS: three parts joined by
/// exactly two dots.
pub open spec fn three_part_token(t: Seq<char>) -> bool {
    t.filter(|c: char| c == '.').len() == 2
}

/// Relies on `jsonwebtoken::encode` with HS256 and the default header: it
/// cannot fail here (the key family matches the header, a map of one text and
/// one number always serialises, HMAC signing is infallible); it signs
/// deterministically, joins three URL-safe base64 parts with dots, and
/// `jsonwebtoken::decode` under the same key gives the claims back.
#[verifier::external_body]
fn sign_claims(sub: &str, exp: usize, secret: &str) -> (r: Option<String>)
    ensures
        r is Some,
        r matches Some(t) ==> three_part_token(t@),
        r matches Some(t) ==> t@ == hs256_token(sub@, exp as int, secret@) && hs256_claims(
            t@,
            secret@,
        ) == Some((sub@, exp as int)),
{
    let mut claims = serde_json::Map::new();
    claims.insert("sub".to_string(), serde_json::Value::from(sub));
    claims.insert("exp".to_string(), serde_json::Value::from(exp));
    let key = jsonwebtoken::EncodingKey::from_secret(secret.as_bytes());
    jsonwebtoken::encode(&jsonwebtoken::Header::default(), &claims, &key).ok()
}

/// Relies on `jsonwebtoken::decode` with HS256, its expiry check switched off:
/// the claims of a token whose signature under `secret` holds.
#[verifier::external_body]
fn read_claims(token: &str, secret: &str) -> (r: Option<(String, usize)>)
    ensures
        r matches Some((s, e)) ==> hs256_claims(token@, secret@) == Some((s@, e as int)),
        r is None ==> hs256_claims(token@, secret@) is None,
{
    let mut validation = jsonwebtoken::Validation::new(jsonwebtoken::Algorithm::HS256);
    validation.validate_exp = false;
    let key = jsonwebtoken::DecodingKey::from_secret(secret.as_bytes());
    let data = jsonwebtoken::decode::<serde_json::Map<String, serde_json::Value>>(
        token,
        &key,
        &validation,
    ).ok()?;
    let sub = data.claims.get("sub")?.as_str()?.to_string();
    let exp = usize::try_from(data.claims.get("exp")?.as_u64()?).ok()?;
    Some((sub, exp))
}

/// Relies on `chrono::Utc::now`: the time now, in whole seconds since the
/// Unix epoch. It panics rather than report a time before the epoch.
#[verifier::external_body]
fn unix_now() -> (r: i64)
    ensures
        r >= 0,
{
    chrono::Utc::now().timestamp()
}

/// The time now in seconds since the Unix epoch.
pub fn now_seconds() -> (r: u64) {
    unix_now() as u64
}

/// What a session token asserts: its subject and when it lapses.
pub struct Claims {
    pub sub: String,
    pub exp: usize,
}

impl View for Claims {
    type V = (Seq<char>, int);

    open spec fn view(&self) -> (Seq<char>, int) {
        (self.sub@, self.exp as int)
    }
}

impl Clone for Claims {
    fn clone(&self) -> (r: Claims)
        ensures
            r@ == self@,
    {
        Claims { sub: self.sub.clone(), exp: self.exp }
    }
}

/// Why a session token is refused.
#[derive(Debug, PartialEq, Eq, Structural)]
pub enum TokenValidationError {
    BannedToken,
    InvalidToken,
    IssueWithBannedStore,
}

/// Why a session token could not be made.
#[derive(Debug, PartialEq, Eq, Structural)]
pub enum TokenError {
    /// The expiry does not fit the claims.
    ExpiryOutOfRange,
    /// The signer failed.
    SigningFailed,
}

/// What the codec alone makes of `token` at time `now`: its claims when the
/// signature holds and it has not lapsed (`exp <= now` has lapsed).
pub open spec fn codec_outcome(token: Seq<char>, secret: Seq<char>, now: u64) -> Result<
    (Seq<char>, int),
    TokenValidationError,
> {
    match hs256_claims(token, secret) {
        Some(c) => if now < c.1 {
            Ok(c)
        } else {
            Err(TokenValidationError::InvalidToken)
        },
        None => Err(TokenValidationError::InvalidToken),
    }
}

/// What session verification makes of `token` at time `now`: a revoked token
/// is refused before the codec looks at it.
pub open spec fn session_outcome(
    banned: Map<Seq<char>, u64>,
    token: Seq<char>,
    secret: Seq<char>,
    now: u64,
) -> Result<(Seq<char>, int), TokenValidationError> {
    if is_banned(banned, token, now) {
        Err(TokenValidationError::BannedToken)
    } else {
        codec_outcome(token, secret, now)
    }
}

/// Whether a result carries the claims, or the error, that `outcome` gives.
pub open spec fn claims_match(
    r: Result<Claims, TokenValidationError>,
    outcome: Result<(Seq<char>, int), TokenValidationError>,
) -> bool {
    match r {
        Ok(c) => outcome == Ok::<(Seq<char>, int), TokenValidationError>(c@),
        Err(e) => outcome == Err::<(Seq<char>, int), TokenValidationError>(e),
    }
}

/// Signs and checks session tokens under one shared secret.
pub struct TokenCodec {
    secret: String,
}

impl TokenCodec {
    pub fn new(secret: String) -> (r: TokenCodec)
        ensures
            r.secret() == secret@,
    {
        TokenCodec { secret }
    }

    /// The shared secret.
    pub closed spec fn secret(&self) -> Seq<char> {
        self.secret@
    }

    /// Signs `claims`.
    pub fn issue(&self, claims: &Claims) -> (r: Result<String, TokenError>)
        ensures
            r is Ok,
            r matches Ok(t) ==> three_part_token(t@),
            r matches Ok(t) ==> t@ == hs256_token(claims@.0, claims@.1, self.secret())
                && hs256_claims(t@, self.secret()) == Some(claims@),
    {
        match sign_claims(claims.sub.as_str(), claims.exp, self.secret.as_str()) {
            Some(t) => Ok(t),
            None => Err(TokenError::SigningFailed),
        }
    }

    /// Reads the claims of `token`, refusing a bad signature, a malformed
    /// token, or one that has lapsed at `now`.
    pub fn verify(&self, token: &str, now: u64) -> (r: Result<Claims, TokenValidationError>)
        ensures
            claims_match(r, codec_outcome(token@, self.secret(), now)),
    {
        match read_claims(token, self.secret.as_str()) {
            Some((sub, exp)) => {
                if (now as u128) < (exp as u128) {
                    Ok(Claims { sub, exp })
                } else {
                    Err(TokenValidationError::InvalidToken)
                }
            },
            None => Err(TokenValidationError::InvalidToken),
        }
    }
}

/// The expiry of a token issued at `now`.
pub open spec fn expiry_at(now: u64) -> int {
    now + TOKEN_TTL_SECONDS
}

/// Issues a session token for `email` at time `now`, valid for
/// `TOKEN_TTL_SECONDS`.
pub fn generate_auth_token(email: &Email, codec: &TokenCodec, now: u64) -> (r: Result<
    String,
    TokenError,
>)
    ensures
        r matches Ok(t) ==> three_part_token(t@),
        r matches Ok(t) ==> t@ == hs256_token(email@, expiry_at(now), codec.secret())
            && hs256_claims(t@, codec.secret()) == Some((email@, expiry_at(now))),
        expiry_at(now) <= usize::MAX ==> r is Ok,
        expiry_at(now) > usize::MAX ==> r == Err::<String, TokenError>(
            TokenError::ExpiryOutOfRange,
        ),
{
    if now > u64::MAX - TOKEN_TTL_SECONDS {
        return Err(TokenError::ExpiryOutOfRange);
    }
    let exp = now + TOKEN_TTL_SECONDS;
    if exp as u128 > usize::MAX as u128 {
        return Err(TokenError::ExpiryOutOfRange);
    }
    let claims = Claims { sub: email.as_ref().to_owned(), exp: exp as usize };
    codec.issue(&claims)
}

/// Verifies a session token at time `now`: revoked first, then signature and
/// expiry. A revocation store that cannot answer fails the check.
pub fn validate_token<S: BannedTokenStore>(
    token: &str,
    banned_token_store: &S,
    codec: &TokenCodec,
    now: u64,
) -> (r: Result<Claims, TokenValidationError>)
    ensures
        r == Err::<Claims, TokenValidationError>(TokenValidationError::IssueWithBannedStore)
            || claims_match(r, session_outcome(banned_token_store.banned(), token@, codec.secret(), now)),
        banned_token_store.available() ==> claims_match(
            r,
            session_outcome(banned_token_store.banned(), token@, codec.secret(), now),
        ),
{
    match banned_token_store.contains_token(token, now) {
        Ok(true) => Err(TokenValidationError::BannedToken),
        Ok(false) => codec.verify(token, now),
        Err(_) => Err(TokenValidationError::IssueWithBannedStore),
    }
}

/// What the codec issues, it reads back: a token signed for claims that have
/// not lapsed at `now` verifies to exactly those claims.
pub proof fn lemma_token_round_trip(
    token: Seq<char>,
    sub: Seq<char>,
    exp: int,
    secret: Seq<char>,
    now: u64,
)
    requires
        hs256_claims(token, secret) == Some((sub, exp)),
        now < exp,
    ensures
        codec_outcome(token, secret, now) == Ok::<(Seq<char>, int), TokenValidationError>((sub, exp)),
{
}

} // verus!
