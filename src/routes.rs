use vstd::prelude::*;
use vstd::string::*;

use crate::auth::{
    claims_match, expiry_at, generate_auth_token, hs256_claims, hs256_token, session_outcome,
    three_part_token, validate_token, Claims, TokenCodec, TokenValidationError,
};
use crate::banned_token_store::BannedTokenStore;
use crate::email::{accepted_email, Email};
use crate::password::{valid_password, Password};
use crate::two_fa::{uuid_text, valid_code, LoginAttemptId, TwoFACode};
use crate::two_fa_code_store::{challenge_expiry, pending, TwoFACodeStore, TwoFACodeStoreError};
use crate::user::User;
use crate::user_store::{credentials_outcome, UserStore, UserStoreError};

verus! {

/// The outcomes that the service reports to its callers.
#[derive(Clone, Copy, Debug, PartialEq, Eq, Structural)]
pub enum AuthAPIError {
    UserAlreadyExists,
    InvalidCredentials,
    IncorrectCredentials,
    UnexpectedError,
    InvalidToken,
    MissingToken,
}

/// The body of an error reply.
pub struct ErrorResponse {
    pub error: String,
}

/// The message shown for an error.
pub open spec fn error_text(e: AuthAPIError) -> Seq<char> {
    match e {
        AuthAPIError::UserAlreadyExists => "User already exists"@,
        AuthAPIError::InvalidCredentials => "Invalid credentials"@,
        AuthAPIError::IncorrectCredentials => "Unauthorized"@,
        AuthAPIError::UnexpectedError => "Unexpected error"@,
        AuthAPIError::InvalidToken => "Invalid Token"@,
        AuthAPIError::MissingToken => "Missing Token"@,
    }
}

/// The HTTP status of an error.
pub open spec fn error_status(e: AuthAPIError) -> u16 {
    match e {
        AuthAPIError::UserAlreadyExists => 409,
        AuthAPIError::InvalidCredentials => 400,
        AuthAPIError::IncorrectCredentials => 401,
        AuthAPIError::UnexpectedError => 500,
        AuthAPIError::InvalidToken => 401,
        AuthAPIError::MissingToken => 400,
    }
}

impl AuthAPIError {
    /// The HTTP status of the error.
    pub fn status_code(&self) -> (r: u16)
        ensures
            r == error_status(*self),
    {
        match self {
            AuthAPIError::UserAlreadyExists => 409,
            AuthAPIError::InvalidCredentials => 400,
            AuthAPIError::IncorrectCredentials => 401,
            AuthAPIError::UnexpectedError => 500,
            AuthAPIError::InvalidToken => 401,
            AuthAPIError::MissingToken => 400,
        }
    }

    /// The body of the error reply; it names no internal cause.
    pub fn error_response(&self) -> (r: ErrorResponse)
        ensures
            r.error@ == error_text(*self),
    {
        let text = match self {
            AuthAPIError::UserAlreadyExists => "User already exists",
            AuthAPIError::InvalidCredentials => "Invalid credentials",
            AuthAPIError::IncorrectCredentials => "Unauthorized",
            AuthAPIError::UnexpectedError => "Unexpected error",
            AuthAPIError::InvalidToken => "Invalid Token",
            AuthAPIError::MissingToken => "Missing Token",
        };
        ErrorResponse { error: String::from_str(text) }
    }
}

pub struct SignupRequest {
    pub email: String,
    pub password: String,
    pub requires_2fa: bool,
}

pub struct SignupResponse {
    pub message: String,
}

pub struct LoginRequest {
    pub email: String,
    pub password: String,
}

/// The body of a reply that asks for the second factor.
pub struct TwoFactorAuthResponse {
    pub message: String,
    pub login_attempt_id: String,
}

/// The body of a successful login reply.
pub enum LoginResponse {
    RegularAuth,
    TwoFactorAuth(TwoFactorAuthResponse),
}

pub struct Verify2FARequest {
    pub email: String,
    pub login_attempt_id: String,
    pub code: String,
}

pub struct VerifyTokenRequest {
    pub token: String,
}

pub struct VerifyTokenResponse {}

/// What a login that passed the credential check leads to.
pub enum LoginOutcome {
    /// A session token was issued.
    Authenticated(String),
    /// A challenge is pending: `code` is to be delivered to `email`, and
    /// `response` goes back to the caller.
    PendingTwoFactor { response: TwoFactorAuthResponse, email: Email, code: TwoFACode },
}

impl LoginOutcome {
    /// The reply body for the outcome.
    pub fn response(self) -> (r: LoginResponse)
        ensures
            self is Authenticated ==> r is RegularAuth,
            self matches LoginOutcome::PendingTwoFactor { response, .. } ==> r matches LoginResponse::TwoFactorAuth(b)
                && b.message@ == response.message@ && b.login_attempt_id@
                == response.login_attempt_id@,
    {
        match self {
            LoginOutcome::Authenticated(_) => LoginResponse::RegularAuth,
            LoginOutcome::PendingTwoFactor { response, .. } => LoginResponse::TwoFactorAuth(response),
        }
    }
}

/// The stores and the token codec that the service runs on. Each store is
/// reached through its trait, so an in-memory backend and a networked one
/// are interchangeable.
pub struct AppState<U, B, C> {
    pub user_store: U,
    pub banned_token_store: B,
    pub two_fa_code_store: C,
    pub codec: TokenCodec,
}

impl<U: UserStore, B: BannedTokenStore, C: TwoFACodeStore> AppState<U, B, C> {
    pub fn new(user_store: U, banned_token_store: B, two_fa_code_store: C, codec: TokenCodec) -> (r:
        AppState<U, B, C>)
        ensures
            r.user_store == user_store,
            r.banned_token_store == banned_token_store,
            r.two_fa_code_store == two_fa_code_store,
            r.codec.secret() == codec.secret(),
    {
        AppState { user_store, banned_token_store, two_fa_code_store, codec }
    }

    /// Whether every store answers every request.
    pub open spec fn available(&self) -> bool {
        &&& self.user_store.available()
        &&& self.banned_token_store.available()
        &&& self.two_fa_code_store.available()
    }
}

/// Registers a principal. A malformed address or a short password is
/// refused as invalid input; a taken address as `UserAlreadyExists`; a store
/// that fails as `UnexpectedError`.
pub fn signup_handler<U: UserStore, B: BannedTokenStore, C: TwoFACodeStore>(
    state: &mut AppState<U, B, C>,
    request: SignupRequest,
) -> (r: Result<SignupResponse, AuthAPIError>)
    ensures
        final(state).banned_token_store == old(state).banned_token_store,
        final(state).two_fa_code_store == old(state).two_fa_code_store,
        final(state).codec.secret() == old(state).codec.secret(),
        final(state).available() == old(state).available(),
        !accepted_email(request.email@) || !valid_password(request.password@) ==> r
            == Err::<SignupResponse, AuthAPIError>(AuthAPIError::InvalidCredentials)
            && final(state).user_store.users() == old(state).user_store.users(),
        r is Ok ==> {
            &&& r matches Ok(s) && s.message@ == "User created successfully!"@
            &&& accepted_email(request.email@) && valid_password(request.password@)
            &&& !old(state).user_store.users().contains_key(request.email@)
            &&& final(state).user_store.users().dom() == old(
                state,
            ).user_store.users().dom().insert(request.email@)
            &&& final(state).user_store.users()[request.email@].email@ == request.email@
            &&& final(state).user_store.users()[request.email@].password@ == request.password@
            &&& final(state).user_store.users()[request.email@].requires_2fa
                == request.requires_2fa
            &&& forall|k: Seq<char>|
                k != request.email@ ==> #[trigger] final(state).user_store.users()[k] == old(
                    state,
                ).user_store.users()[k]
        },
        r is Err ==> final(state).user_store.users() == old(state).user_store.users(),
        r == Err::<SignupResponse, AuthAPIError>(AuthAPIError::UserAlreadyExists) ==> old(
            state,
        ).user_store.users().contains_key(request.email@),
        r is Err ==> r == Err::<SignupResponse, AuthAPIError>(AuthAPIError::InvalidCredentials)
            || r == Err::<SignupResponse, AuthAPIError>(AuthAPIError::UserAlreadyExists) || (r
            == Err::<SignupResponse, AuthAPIError>(AuthAPIError::UnexpectedError) && !old(
            state,
        ).user_store.available()),
        old(state).user_store.available() && accepted_email(request.email@) && valid_password(
            request.password@,
        ) ==> (r is Ok <==> !old(state).user_store.users().contains_key(request.email@)),
{
    let email = match Email::parse(request.email) {
        Ok(e) => e,
        Err(_) => return Err(AuthAPIError::InvalidCredentials),
    };
    let password = match Password::parse(request.password) {
        Ok(p) => p,
        Err(_) => return Err(AuthAPIError::InvalidCredentials),
    };
    let user = User { email, password, requires_2fa: request.requires_2fa };
    match state.user_store.add_user(user) {
        Ok(()) => Ok(SignupResponse { message: String::from_str("User created successfully!") }),
        Err(UserStoreError::UserAlreadyExists) => Err(AuthAPIError::UserAlreadyExists),
        Err(_) => Err(AuthAPIError::UnexpectedError),
    }
}

/// Where a login request goes once its inputs and credentials are judged.
pub enum LoginStep {
    Reject(AuthAPIError),
    Session,
    Challenge,
}

/// The step of a login with address `email` and password `password`.
pub open spec fn login_step(users: Map<Seq<char>, User>, email: Seq<char>, password: Seq<char>) -> LoginStep {
    if !accepted_email(email) || !valid_password(password) {
        LoginStep::Reject(AuthAPIError::InvalidCredentials)
    } else if credentials_outcome(users, email, password) is Err {
        LoginStep::Reject(AuthAPIError::IncorrectCredentials)
    } else if users[email].requires_2fa {
        LoginStep::Challenge
    } else {
        LoginStep::Session
    }
}

/// Whether `t` is the session token issued for `email` at time `now`.
pub open spec fn issued_session(t: Seq<char>, email: Seq<char>, secret: Seq<char>, now: u64) -> bool {
    &&& t == hs256_token(email, expiry_at(now), secret)
    &&& hs256_claims(t, secret) == Some((email, expiry_at(now)))
    &&& three_part_token(t)
}

/// Issues the session of a login that needs no second factor.
fn handle_no_2fa(email: &Email, codec: &TokenCodec, now: u64) -> (r: Result<LoginOutcome, AuthAPIError>)
    ensures
        r matches Ok(o) ==> o matches LoginOutcome::Authenticated(t) && issued_session(
            t@,
            email@,
            codec.secret(),
            now,
        ),
        r matches Err(e) ==> e == AuthAPIError::UnexpectedError,
        r is Ok <==> expiry_at(now) <= usize::MAX,
{
    match generate_auth_token(email, codec, now) {
        Ok(token) => Ok(LoginOutcome::Authenticated(token)),
        Err(_) => Err(AuthAPIError::UnexpectedError),
    }
}

/// Opens a challenge for `email`, replacing any pending one, and hands back
/// what is to be delivered.
fn handle_2fa<C: TwoFACodeStore>(
    store: &mut C,
    email: Email,
    login_attempt_id: LoginAttemptId,
    code: TwoFACode,
    now: u64,
) -> (r: Result<LoginOutcome, AuthAPIError>)
    ensures
        final(store).available() == old(store).available(),
        old(store).available() ==> (r is Ok <==> challenge_expiry(now) <= u64::MAX),
        r matches Ok(o) ==> {
            &&& o matches LoginOutcome::PendingTwoFactor { response, email: to, code: sent } && response.message@
                == "2FA required"@ && response.login_attempt_id@ == login_attempt_id@ && to@
                == email@ && sent@ == code@
            &&& challenge_expiry(now) <= u64::MAX
            &&& final(store).entries() == old(store).entries().insert(
                email@,
                (login_attempt_id@, code@, challenge_expiry(now) as u64),
            )
        },
        r matches Err(e) ==> e == AuthAPIError::UnexpectedError && final(store).entries() == old(
            store,
        ).entries(),
{
    let id_text = login_attempt_id.as_ref().to_owned();
    let sent = code.clone();
    let to = email.clone();
    match store.add_code(email, login_attempt_id, code, now) {
        Ok(()) => {
            let response = TwoFactorAuthResponse {
                message: String::from_str("2FA required"),
                login_attempt_id: id_text,
            };
            Ok(LoginOutcome::PendingTwoFactor { response, email: to, code: sent })
        },
        Err(_) => Err(AuthAPIError::UnexpectedError),
    }
}

/// Logs a principal in at time `now`. Where a second factor is asked for,
/// `login_attempt_id` and `two_fa_code` become the pending challenge. A store
/// that fails ends the attempt with `UnexpectedError`.
pub fn login_handler<U: UserStore, B: BannedTokenStore, C: TwoFACodeStore>(
    state: &mut AppState<U, B, C>,
    request: LoginRequest,
    login_attempt_id: LoginAttemptId,
    two_fa_code: TwoFACode,
    now: u64,
) -> (r: Result<LoginOutcome, AuthAPIError>)
    ensures
        final(state).user_store == old(state).user_store,
        final(state).banned_token_store == old(state).banned_token_store,
        final(state).codec.secret() == old(state).codec.secret(),
        final(state).available() == old(state).available(),
        match login_step(old(state).user_store.users(), request.email@, request.password@) {
            LoginStep::Reject(e) => {
                &&& final(state).two_fa_code_store.entries()
                    == old(state).two_fa_code_store.entries()
                &&& r == Err::<LoginOutcome, AuthAPIError>(e) || (e
                    == AuthAPIError::IncorrectCredentials && r == Err::<
                    LoginOutcome,
                    AuthAPIError,
                >(AuthAPIError::UnexpectedError) && !old(state).user_store.available())
            },
            LoginStep::Session => {
                &&& final(state).two_fa_code_store.entries()
                    == old(state).two_fa_code_store.entries()
                &&& r matches Ok(o) ==> o matches LoginOutcome::Authenticated(t)
                    && issued_session(t@, request.email@, old(state).codec.secret(), now)
                &&& r matches Err(e) ==> e == AuthAPIError::UnexpectedError
                &&& old(state).user_store.available() && expiry_at(now) <= usize::MAX ==> r is Ok
            },
            LoginStep::Challenge => {
                &&& old(state).available() ==> (r is Ok <==> challenge_expiry(now) <= u64::MAX)
                &&& r matches Ok(o) ==> o matches LoginOutcome::PendingTwoFactor {
                    response,
                    email,
                    code,
                } && response.message@ == "2FA required"@ && response.login_attempt_id@
                    == login_attempt_id@ && email@ == request.email@ && code@ == two_fa_code@
                    && final(state).two_fa_code_store.entries()
                    == old(state).two_fa_code_store.entries().insert(
                    request.email@,
                    (login_attempt_id@, two_fa_code@, challenge_expiry(now) as u64),
                )
                &&& r matches Err(e) ==> e == AuthAPIError::UnexpectedError
                    && final(state).two_fa_code_store.entries()
                    == old(state).two_fa_code_store.entries()
            },
        },
{
    let email = Email::parse(request.email);
    let password = Password::parse(request.password);
    let (email, password) = match (email, password) {
        (Ok(e), Ok(p)) => (e, p),
        _ => return Err(AuthAPIError::InvalidCredentials),
    };
    match state.user_store.validate_user(&email, &password) {
        Ok(()) => {},
        Err(UserStoreError::UnexpectedError) => return Err(AuthAPIError::UnexpectedError),
        Err(_) => return Err(AuthAPIError::IncorrectCredentials),
    }
    let user = match state.user_store.get_user(&email) {
        Ok(u) => u,
        Err(_) => return Err(AuthAPIError::UnexpectedError),
    };
    if user.requires_2fa {
        handle_2fa(&mut state.two_fa_code_store, email, login_attempt_id, two_fa_code, now)
    } else {
        handle_no_2fa(&email, &state.codec, now)
    }
}

/// What checking a submitted attempt id `id` and code `code` for `email`
/// against the pending challenges gives at time `now`.
pub open spec fn two_fa_check(
    entries: Map<Seq<char>, (Seq<char>, Seq<char>, u64)>,
    email: Seq<char>,
    id: Seq<char>,
    code: Seq<char>,
    now: u64,
) -> Result<(), AuthAPIError> {
    match pending(entries, email, now) {
        Some(p) => if p == (id, code) {
            Ok(())
        } else {
            Err(AuthAPIError::IncorrectCredentials)
        },
        None => Err(AuthAPIError::IncorrectCredentials),
    }
}

/// What a two-factor verification request with raw fields `email`, `id` and
/// `code` gives at time `now`: malformed fields are invalid input, and the
/// attempt id is compared in its hyphenated form.
pub open spec fn verify_2fa_step(
    entries: Map<Seq<char>, (Seq<char>, Seq<char>, u64)>,
    email: Seq<char>,
    id: Seq<char>,
    code: Seq<char>,
    now: u64,
) -> Result<(), AuthAPIError> {
    if !accepted_email(email) || !valid_code(code) {
        Err(AuthAPIError::InvalidCredentials)
    } else {
        match uuid_text(id) {
            Some(canonical) => two_fa_check(entries, email, canonical, code, now),
            None => Err(AuthAPIError::InvalidCredentials),
        }
    }
}

/// Completes a two-factor login at time `now`. A correct submission uses the
/// challenge up and issues a session; a wrong one leaves the challenge as it
/// was. A challenge store that fails ends the attempt with `UnexpectedError`.
pub fn verify_2fa_handler<U: UserStore, B: BannedTokenStore, C: TwoFACodeStore>(
    state: &mut AppState<U, B, C>,
    request: Verify2FARequest,
    now: u64,
) -> (r: Result<String, AuthAPIError>)
    ensures
        final(state).user_store == old(state).user_store,
        final(state).banned_token_store == old(state).banned_token_store,
        final(state).codec.secret() == old(state).codec.secret(),
        final(state).available() == old(state).available(),
        match verify_2fa_step(
            old(state).two_fa_code_store.entries(),
            request.email@,
            request.login_attempt_id@,
            request.code@,
            now,
        ) {
            Err(e) => {
                &&& final(state).two_fa_code_store.entries()
                    == old(state).two_fa_code_store.entries()
                &&& r == Err::<String, AuthAPIError>(e) || (e == AuthAPIError::IncorrectCredentials
                    && r == Err::<String, AuthAPIError>(AuthAPIError::UnexpectedError) && !old(
                    state,
                ).two_fa_code_store.available())
            },
            Ok(()) => {
                &&& r matches Ok(t) ==> issued_session(
                    t@,
                    request.email@,
                    old(state).codec.secret(),
                    now,
                ) && final(state).two_fa_code_store.entries()
                    == old(state).two_fa_code_store.entries().remove(request.email@)
                &&& r matches Err(e) ==> e == AuthAPIError::UnexpectedError
                &&& r is Err ==> {
                    ||| final(state).two_fa_code_store.entries()
                        == old(state).two_fa_code_store.entries().remove(request.email@)
                    ||| final(state).two_fa_code_store.entries()
                        == old(state).two_fa_code_store.entries()
                }
                &&& old(state).two_fa_code_store.available() ==> {
                    final(state).two_fa_code_store.entries()
                        == old(state).two_fa_code_store.entries().remove(request.email@)
                }
                &&& old(state).two_fa_code_store.available() && expiry_at(now) <= usize::MAX
                    ==> r is Ok
            },
        },
{
    let email = match Email::parse(request.email) {
        Ok(e) => e,
        Err(_) => return Err(AuthAPIError::InvalidCredentials),
    };
    let code = match TwoFACode::parse(request.code) {
        Ok(c) => c,
        Err(_) => return Err(AuthAPIError::InvalidCredentials),
    };
    let id = match LoginAttemptId::parse(request.login_attempt_id) {
        Ok(i) => i,
        Err(_) => return Err(AuthAPIError::InvalidCredentials),
    };
    let (stored_id, stored_code) = match state.two_fa_code_store.get_code(&email, now) {
        Ok(entry) => entry,
        Err(TwoFACodeStoreError::LoginAttemptIdNotFound) => {
            return Err(AuthAPIError::IncorrectCredentials)
        },
        Err(_) => return Err(AuthAPIError::UnexpectedError),
    };
    if stored_id == id && stored_code == code {
        if state.two_fa_code_store.remove_code(&email).is_err() {
            return Err(AuthAPIError::UnexpectedError);
        }
        match generate_auth_token(&email, &state.codec, now) {
            Ok(token) => Ok(token),
            Err(_) => Err(AuthAPIError::UnexpectedError),
        }
    } else {
        Err(AuthAPIError::IncorrectCredentials)
    }
}

/// Ends the session of `token` at time `now`: a missing token is reported as
/// such, one that does not verify is refused, and a valid one is revoked
/// until its own expiry. A revocation store that fails gives
/// `UnexpectedError`.
pub fn logout_handler<U: UserStore, B: BannedTokenStore, C: TwoFACodeStore>(
    state: &mut AppState<U, B, C>,
    token: Option<String>,
    now: u64,
) -> (r: Result<(), AuthAPIError>)
    ensures
        final(state).user_store == old(state).user_store,
        final(state).two_fa_code_store == old(state).two_fa_code_store,
        final(state).codec.secret() == old(state).codec.secret(),
        final(state).available() == old(state).available(),
        token is None ==> r == Err::<(), AuthAPIError>(AuthAPIError::MissingToken)
            && final(state).banned_token_store.banned() == old(state).banned_token_store.banned(),
        token matches Some(t) ==> match session_outcome(
            old(state).banned_token_store.banned(),
            t@,
            old(state).codec.secret(),
            now,
        ) {
            Err(_) => {
                &&& final(state).banned_token_store.banned()
                    == old(state).banned_token_store.banned()
                &&& r == Err::<(), AuthAPIError>(AuthAPIError::InvalidToken) || (r == Err::<
                    (),
                    AuthAPIError,
                >(AuthAPIError::UnexpectedError) && !old(state).banned_token_store.available())
            },
            Ok(c) => {
                &&& r is Ok ==> final(state).banned_token_store.banned()
                    == old(state).banned_token_store.banned().insert(t@, c.1 as u64)
                &&& r matches Err(e) ==> e == AuthAPIError::UnexpectedError
                    && final(state).banned_token_store.banned()
                    == old(state).banned_token_store.banned()
                &&& old(state).banned_token_store.available() ==> r is Ok
            },
        },
{
    let token = match token {
        Some(t) => t,
        None => return Err(AuthAPIError::MissingToken),
    };
    let claims = match validate_token(token.as_str(), &state.banned_token_store, &state.codec, now) {
        Ok(c) => c,
        Err(TokenValidationError::IssueWithBannedStore) => {
            return Err(AuthAPIError::UnexpectedError)
        },
        Err(_) => return Err(AuthAPIError::InvalidToken),
    };
    match state.banned_token_store.add_token(token, claims.exp as u64) {
        Ok(()) => Ok(()),
        Err(_) => Err(AuthAPIError::UnexpectedError),
    }
}

/// Verifies a session token at time `now`.
pub fn verify_token<U: UserStore, B: BannedTokenStore, C: TwoFACodeStore>(
    state: &AppState<U, B, C>,
    request: VerifyTokenRequest,
    now: u64,
) -> (r: Result<Claims, TokenValidationError>)
    ensures
        r == Err::<Claims, TokenValidationError>(TokenValidationError::IssueWithBannedStore)
            || claims_match(
            r,
            session_outcome(
                state.banned_token_store.banned(),
                request.token@,
                state.codec.secret(),
                now,
            ),
        ),
        state.banned_token_store.available() ==> claims_match(
            r,
            session_outcome(
                state.banned_token_store.banned(),
                request.token@,
                state.codec.secret(),
                now,
            ),
        ),
{
    validate_token(request.token.as_str(), &state.banned_token_store, &state.codec, now)
}

/// A session issued by a login verifies, with the principal as subject,
/// until it lapses, unless that very token has been revoked.
pub proof fn lemma_login_session_verifies(
    banned: Map<Seq<char>, u64>,
    token: Seq<char>,
    email: Seq<char>,
    secret: Seq<char>,
    issued_at: u64,
    now: u64,
)
    requires
        issued_session(token, email, secret, issued_at),
        now < expiry_at(issued_at),
        !crate::banned_token_store::is_banned(banned, token, now),
    ensures
        session_outcome(banned, token, secret, now) == Ok::<(Seq<char>, int), TokenValidationError>(
            (email, expiry_at(issued_at)),
        ),
{
}

/// After a logout, the token is refused as revoked for as long as the codec
/// alone would still accept it.
pub proof fn lemma_logout_bans_token(
    banned: Map<Seq<char>, u64>,
    token: Seq<char>,
    secret: Seq<char>,
    logout_at: u64,
    now: u64,
)
    requires
        session_outcome(banned, token, secret, logout_at) is Ok,
        session_outcome(banned, token, secret, logout_at)->Ok_0.1 <= u64::MAX,
        crate::auth::codec_outcome(token, secret, now) is Ok,
    ensures
        session_outcome(
            banned.insert(token, session_outcome(banned, token, secret, logout_at)->Ok_0.1 as u64),
            token,
            secret,
            now,
        ) == Err::<(Seq<char>, int), TokenValidationError>(TokenValidationError::BannedToken),
{
}

/// A code is good once: after a verification has accepted it, the same
/// submission is refused as incorrect, at any later time.
pub proof fn lemma_code_single_use(
    entries: Map<Seq<char>, (Seq<char>, Seq<char>, u64)>,
    email: Seq<char>,
    id: Seq<char>,
    code: Seq<char>,
    now: u64,
    later: u64,
)
    requires
        verify_2fa_step(entries, email, id, code, now) is Ok,
    ensures
        verify_2fa_step(entries.remove(email), email, id, code, later) == Err::<(), AuthAPIError>(
            AuthAPIError::IncorrectCredentials,
        ),
{
}

/// A second login for the same principal replaces the first challenge: the
/// first attempt's id and code are refused afterwards, unless the new
/// challenge happens to carry the very same pair.
pub proof fn lemma_new_challenge_supersedes(
    entries: Map<Seq<char>, (Seq<char>, Seq<char>, u64)>,
    email: Seq<char>,
    first_id: Seq<char>,
    first_code: Seq<char>,
    second_id: Seq<char>,
    second_code: Seq<char>,
    expires_at: u64,
    now: u64,
)
    requires
        uuid_text(first_id) == Some(first_id),
        (first_id, first_code) != (second_id, second_code),
    ensures
        verify_2fa_step(
            entries.insert(email, (second_id, second_code, expires_at)),
            email,
            first_id,
            first_code,
            now,
        ) is Err,
{
}

/// A challenge whose lapse time has come is refused, even with the right id
/// and code.
pub proof fn lemma_expired_code_refused(
    entries: Map<Seq<char>, (Seq<char>, Seq<char>, u64)>,
    email: Seq<char>,
    id: Seq<char>,
    code: Seq<char>,
    now: u64,
)
    requires
        entries.contains_key(email),
        entries[email].2 <= now,
    ensures
        verify_2fa_step(entries, email, id, code, now) is Err,
{
}

} // verus!
