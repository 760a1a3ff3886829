//! Signed tokens: their kinds, the secret of each kind, and when a token is
//! too old.

use crate::config::{AppConfig, SecretConfig};
use crate::error::{AppError, AppResult, ErrorCode};
use std::sync::Arc;
use vstd::prelude::*;

verus! {

/// What a token is good for.
#[derive(Debug, Clone, Copy, PartialEq, Eq, Structural)]
pub enum TokenType {
    Access,
    Refresh,
    SignUp,
    Restore,
}

/// The claims of a token, as far as the token service reads them.
pub trait Token {
    /// The time after which the token is no longer valid, in seconds since
    /// 1970.
    spec fn expiry(&self) -> u64;

    /// What the token is good for.
    spec fn kind(&self) -> TokenType;

    fn exp(&self) -> (exp: u64)
        ensures
            exp == self.expiry(),
    ;

    fn token_type(&self) -> (token_type: TokenType)
        ensures
            token_type == self.kind(),
    ;
}

/// The secret that tokens of a kind are signed with.
pub open spec fn secret_of(secrets: SecretConfig, token_type: TokenType) -> String {
    match token_type {
        TokenType::Access => secrets.access_secret,
        TokenType::Refresh => secrets.refresh_secret,
        TokenType::SignUp => secrets.sign_up_secret,
        TokenType::Restore => secrets.restore_secret,
    }
}

/// Whether a token that expires at `exp` is too old at `now`.
pub open spec fn outdated(now: u64, exp: u64) -> bool {
    now > exp
}

/// Knows the secrets and judges the age of tokens.
pub struct TokenService {
    config: Arc<AppConfig>,
}

impl TokenService {
    /// The settings that the service works with.
    pub closed spec fn settings(&self) -> AppConfig {
        *self.config
    }

    pub fn new(config: Arc<AppConfig>) -> (service: Self)
        ensures
            service.settings() == *config,
    {
        TokenService { config }
    }

    /// The secret that tokens of a kind are signed with.
    pub fn get_secret_by_token_type(&self, token_type: &TokenType) -> (secret: &str)
        ensures
            secret@ == secret_of(self.settings().secret_config, *token_type)@,
    {
        match token_type {
            TokenType::Access => self.config.secret_config.access_secret.as_str(),
            TokenType::Refresh => self.config.secret_config.refresh_secret.as_str(),
            TokenType::SignUp => self.config.secret_config.sign_up_secret.as_str(),
            TokenType::Restore => self.config.secret_config.restore_secret.as_str(),
        }
    }

    /// The secret that a token with these claims is signed with.
    pub fn secret_for<T: Token>(&self, claims: &T) -> (secret: &str)
        ensures
            secret@ == secret_of(self.settings().secret_config, claims.kind())@,
    {
        let token_type = claims.token_type();
        self.get_secret_by_token_type(&token_type)
    }

    /// Hands the claims of a decoded token on unless the token is too old
    /// at `now`.
    pub fn check_claims<T: Token>(&self, claims: T, now: u64) -> (checked: AppResult<T>)
        ensures
            outdated(now, claims.expiry()) <==> checked is Err,
            checked matches Ok(same) ==> same == claims,
            checked matches Err(error) ==> (error matches AppError::Unauthorized(message, code)
                && message@ == "Токен устарел"@ && code == Some(ErrorCode::JWTExpired)),
    {
        if now > claims.exp() {
            Err(AppError::Unauthorized("Токен устарел".to_owned(), Some(ErrorCode::JWTExpired)))
        } else {
            Ok(claims)
        }
    }

    /// Hands the claims of a decoded token on unless the token is too old
    /// by the system clock.
    pub fn check_claims_now<T: Token>(&self, claims: T) -> (checked: AppResult<T>)
        ensures
            exists|now: u64| outdated(now, claims.expiry()) <==> checked is Err,
            checked matches Ok(same) ==> same == claims,
            checked matches Err(error) ==> (error matches AppError::Unauthorized(message, code)
                && message@ == "Токен устарел"@ && code == Some(ErrorCode::JWTExpired)),
    {
        let now = jsonwebtoken::get_current_timestamp();
        self.check_claims(claims, now)
    }

    /// Whether a token with these claims is too old at `now`.
    pub fn is_expired_at<T: Token>(&self, claims: &T, now: u64) -> (expired: bool)
        ensures
            expired == outdated(now, claims.expiry()),
    {
        now > claims.exp()
    }
}

} // verus!
