//! Authentication core: principals and credentials, session tokens with a
//! revocation list, single-use two-factor challenges, and the login flow that
//! sequences them.

pub mod auth;
pub mod banned_token_store;
pub mod email;
pub mod mock_email_client;
pub mod password;
pub mod password_hash;
pub mod routes;
pub mod two_fa;
pub mod two_fa_code_store;
pub mod user;
pub mod user_store;

pub use auth::{Claims, TokenCodec, TokenError, TokenValidationError};
pub use banned_token_store::{BannedTokenError, BannedTokenStore, HashsetBannedTokenStore};
pub use email::{Email, EmailError};
pub use mock_email_client::MockEmailClient;
pub use password::{Password, PasswordError};
pub use routes::{
    AppState, AuthAPIError, ErrorResponse, LoginOutcome, LoginRequest, LoginResponse,
    SignupRequest, SignupResponse, TwoFactorAuthResponse, Verify2FARequest, VerifyTokenRequest,
    VerifyTokenResponse,
};
pub use two_fa::{LoginAttemptId, TwoFACode};
pub use two_fa_code_store::{HashmapTwoFACodeStore, TwoFACodeStore, TwoFACodeStoreError};
pub use user::User;
pub use user_store::{HashMapUserStore, UserStore, UserStoreError};
