//! The rules of signing up: an address is confirmed with a one-time
//! password before the account is made.
//!
//! A sign-up is pending from the moment the password is sent. What is
//! pending is kept in the cache, under the address, together with the token
//! that the client was handed; every later step names that token.

use crate::auth::{is_field, CacheField};
use crate::error::{AppError, AppResult, ErrorCode};
use crate::models::{NewUser, User};
use crate::text::{decimal, decimal_nat, same_text};
use crate::token::{Token, TokenType};
use vstd::prelude::*;

verus! {

/// How long a sign-up token is valid, in seconds.
pub const TOKEN_LIFETIME_SEC: u64 = 660;

/// How long a pending sign-up is kept, in seconds.
pub const CACHE_LIFETIME_SEC: i64 = 600;

/// How long to wait before a one-time password can be sent again, in
/// seconds.
pub const RESEND_OTP_TIMEOUT_SEC: u64 = 60;

/// Number of digits of a one-time password.
pub const OTP_LENGTH: u32 = 6;

/// A request to start signing up.
#[derive(Debug, PartialEq, Eq)]
pub struct SignUpStartRequest {
    pub email: String,
}

/// A request to confirm the address with the one-time password.
#[derive(Debug, PartialEq, Eq)]
pub struct VerifyOTPRequest {
    pub token: String,
    pub otp: String,
}

/// A request to send the one-time password again.
#[derive(Debug, PartialEq, Eq)]
pub struct ResendOTPRequest {
    pub token: String,
}

/// A request to make the account.
#[derive(Debug, PartialEq, Eq)]
pub struct SignUpCompleteRequest {
    pub username: String,
    pub password: String,
    pub token: String,
}

/// The answer to a started sign-up.
#[derive(Debug, PartialEq, Eq)]
pub struct SignUpStartResponse {
    pub token: String,
    pub timeout_seconds: u16,
}

/// The answer to a request to send the one-time password again.
#[derive(Debug, PartialEq, Eq)]
pub struct ResendOTPResponse {
    pub token: String,
    pub timeout_seconds: u16,
}

/// The claims of a sign-up token.
#[derive(Debug, PartialEq, Eq)]
pub struct TokenData {
    pub email: String,
    pub exp: u64,
    pub token_type: TokenType,
    pub created_at: u64,
}

impl Token for TokenData {
    open spec fn expiry(&self) -> u64 {
        self.exp
    }

    open spec fn kind(&self) -> TokenType {
        self.token_type
    }

    fn exp(&self) -> (exp: u64) {
        self.exp
    }

    fn token_type(&self) -> (token_type: TokenType) {
        self.token_type
    }
}

/// A pending sign-up as the cache holds it.
#[derive(Debug, PartialEq, Eq)]
pub struct CachedSignUpOtpParams {
    pub otp_value: String,
    pub send_timestamp_seconds: u64,
    pub verified: bool,
    pub token: String,
}

/// What to do with a request to make the account.
#[derive(Debug, PartialEq, Eq)]
pub enum Completion {
    /// Make the account.
    Proceed,
    /// Refuse with the error; `forget` tells whether the pending sign-up
    /// is to be removed from the cache.
    Refuse { error: AppError, forget: bool },
}

/// Whether `error` is the refusal for a sign-up that is no longer pending.
pub open spec fn is_otp_expired_error(error: AppError) -> bool {
    error matches AppError::Unauthorized(message, code) && message@ == "OTP expired"@ && code
        == Some(ErrorCode::OTPExpired)
}

/// Whether `error` is the refusal for a token other than the pending one.
pub open spec fn is_wrong_token_error(error: AppError) -> bool {
    error matches AppError::Unauthorized(message, code) && message@ == "Ошибка при проверке OTP"@
        && code == Some(ErrorCode::WrongOTPToken)
}

/// Whether `error` is the refusal for a wrong one-time password.
pub open spec fn is_wrong_otp_error(error: AppError) -> bool {
    error matches AppError::Unauthorized(message, code) && message@ == "Неверный OTP"@ && code
        == Some(ErrorCode::WrongOTP)
}

/// Whether `error` is the refusal for asking too soon for another password.
pub open spec fn is_too_soon_error(error: AppError) -> bool {
    error matches AppError::TooManyRequests(message, code) && message@
        == "OTP was sent recently. Please wait before requesting a new one."@ && code == Some(
        ErrorCode::ResendOTPTooManyRequests,
    )
}

/// Whether `error` is the refusal for an address that was not confirmed.
pub open spec fn is_not_verified_error(error: AppError) -> bool {
    error matches AppError::Unauthorized(message, code) && message@ == "OTP not verified"@
        && code == Some(ErrorCode::OTPNotVerified)
}

fn otp_expired_error() -> (error: AppError)
    ensures
        is_otp_expired_error(error),
{
    AppError::Unauthorized("OTP expired".to_owned(), Some(ErrorCode::OTPExpired))
}

/// The rules of signing up.
pub struct SignUpService {}

impl SignUpService {
    pub fn new() -> (service: Self) {
        SignUpService {  }
    }

    /// The claims of the token for a sign-up that starts at `now`.
    pub fn new_token_data(&self, email: String, now: u64) -> (claims: TokenData)
        requires
            now + TOKEN_LIFETIME_SEC <= u64::MAX,
        ensures
            claims == (TokenData {
                email,
                exp: (now + TOKEN_LIFETIME_SEC) as u64,
                token_type: TokenType::SignUp,
                created_at: now,
            }),
    {
        TokenData {
            email,
            exp: now + TOKEN_LIFETIME_SEC,
            token_type: TokenType::SignUp,
            created_at: now,
        }
    }

    /// What the cache is to hold for a sign-up whose password was sent at
    /// `now`.
    pub fn new_pending(&self, otp: u32, token: String, now: u64) -> (pending: CachedSignUpOtpParams)
        ensures
            pending.otp_value@ == decimal_nat(otp as nat),
            pending.send_timestamp_seconds == now,
            !pending.verified,
            pending.token == token,
    {
        CachedSignUpOtpParams {
            otp_value: decimal(otp as u64),
            send_timestamp_seconds: now,
            token,
            verified: false,
        }
    }

    /// What the cache is to hold for a pending sign-up: the password, the
    /// time it was sent, the token, and that the address is not confirmed
    /// yet.
    pub fn pending_fields(&self, pending: &CachedSignUpOtpParams) -> (fields: Vec<CacheField>)
        ensures
            fields@.len() == 4,
            is_field(fields@[0], "otp_value"@, pending.otp_value@),
            is_field(
                fields@[1],
                "send_timestamp_seconds"@,
                decimal_nat(pending.send_timestamp_seconds as nat),
            ),
            is_field(fields@[2], "token"@, pending.token@),
            is_field(fields@[3], "verified"@, "false"@),
    {
        let mut fields: Vec<CacheField> = Vec::new();
        fields.push(
            CacheField { name: "otp_value".to_owned(), value: pending.otp_value.clone() },
        );
        fields.push(
            CacheField {
                name: "send_timestamp_seconds".to_owned(),
                value: decimal(pending.send_timestamp_seconds),
            },
        );
        fields.push(CacheField { name: "token".to_owned(), value: pending.token.clone() });
        fields.push(CacheField { name: "verified".to_owned(), value: "false".to_owned() });
        fields
    }

    /// The field that marks a pending sign-up's address as confirmed.
    pub fn verified_field(&self) -> (field: CacheField)
        ensures
            is_field(field, "verified"@, "true"@),
    {
        CacheField { name: "verified".to_owned(), value: "true".to_owned() }
    }

    /// Whether a user is known, from the answer to a search for the
    /// address: a user was found, or none; any other failure is passed on.
    pub fn is_user_known(&self, found: AppResult<User>) -> (known: AppResult<bool>)
        ensures
            found is Ok ==> known == Ok::<bool, AppError>(true),
            found matches Err(error) ==> known == if error is NotFound {
                Ok::<bool, AppError>(false)
            } else {
                Err::<bool, AppError>(error)
            },
    {
        match found {
            Ok(_) => Ok(true),
            Err(AppError::NotFound(_, _)) => Ok(false),
            Err(error) => Err(error),
        }
    }

    /// The refusal for an address that already has an account.
    pub fn already_exists(&self, email: &str) -> (error: AppError)
        ensures
            error matches AppError::BadRequest(message, code) && message@ == "User with email "@
                + email@ + " already exists"@ && code == Some(ErrorCode::UserAlreadyExists),
    {
        let mut message = "User with email ".to_owned();
        message.append(email);
        message.append(" already exists");
        AppError::BadRequest(message, Some(ErrorCode::UserAlreadyExists))
    }

    /// The answer for a client that starts again while its sign-up is
    /// pending: the token it was handed, and how long the token is still
    /// valid at `now`, in seconds (at most 65535).
    pub fn resume(&self, token: String, claims: &TokenData, now: u64) -> (response:
        SignUpStartResponse)
        ensures
            response.token == token,
            response.timeout_seconds == if claims.exp <= now {
                0int
            } else if claims.exp - now > u16::MAX {
                u16::MAX as int
            } else {
                claims.exp - now
            },
    {
        let left: u64 = if claims.exp <= now {
            0
        } else {
            claims.exp - now
        };
        let timeout_seconds: u16 = if left > 65535 {
            65535
        } else {
            left as u16
        };
        SignUpStartResponse { token, timeout_seconds }
    }

    /// The answer for a client whose sign-up has just started.
    pub fn started(&self, token: String) -> (response: SignUpStartResponse)
        ensures
            response.token == token,
            response.timeout_seconds == TOKEN_LIFETIME_SEC,
    {
        SignUpStartResponse { token, timeout_seconds: 660 }
    }

    /// The answer for a client that was sent another password.
    pub fn resent(&self, token: String) -> (response: ResendOTPResponse)
        ensures
            response.token == token,
            response.timeout_seconds == RESEND_OTP_TIMEOUT_SEC,
    {
        ResendOTPResponse { token, timeout_seconds: 60 }
    }

    /// Whether a cache entry says that the address was confirmed: `true`
    /// or `false`; any other text is an error.
    pub fn parse_verified(&self, text: &str) -> (verified: AppResult<bool>)
        ensures
            text@ == "true"@ ==> verified == Ok::<bool, AppError>(true),
            text@ == "false"@ ==> verified == Ok::<bool, AppError>(false),
            text@ != "true"@ && text@ != "false"@ ==> (verified matches Err(
                AppError::Internal(description),
            ) && description@ == "Invalid verified value in cache"@),
    {
        proof {
            reveal_strlit("true");
            reveal_strlit("false");
            assert("true"@.len() == 4 && "false"@.len() == 5);
        }
        if same_text(text, "true") {
            Ok(true)
        } else if same_text(text, "false") {
            Ok(false)
        } else {
            Err(AppError::internal("Invalid verified value in cache"))
        }
    }

    /// Passes only the token that the pending sign-up was handed.
    pub fn compare_tokens(&self, token1: &str, token2: &str) -> (same: AppResult<()>)
        ensures
            token1@ == token2@ <==> same is Ok,
            same matches Err(error) ==> is_wrong_token_error(error),
    {
        if !same_text(token1, token2) {
            return Err(
                AppError::Unauthorized(
                    "Ошибка при проверке OTP".to_owned(),
                    Some(ErrorCode::WrongOTPToken),
                ),
            );
        }
        Ok(())
    }

    /// Decides whether the one-time password of a request confirms the
    /// address: the sign-up must be pending, the request must name its
    /// token, and the password must be the one that was sent.
    pub fn verify_otp(
        &self,
        payload: &VerifyOTPRequest,
        pending: &Option<CachedSignUpOtpParams>,
    ) -> (verified: AppResult<()>)
        ensures
            verified is Ok <==> (pending matches Some(cached) && payload.token@ == cached.token@
                && payload.otp@ == cached.otp_value@),
            pending is None ==> (verified matches Err(error) && is_otp_expired_error(error)),
            pending matches Some(cached) && payload.token@ != cached.token@ ==> (
            verified matches Err(error) && is_wrong_token_error(error)),
            pending matches Some(cached) && payload.token@ == cached.token@ && payload.otp@
                != cached.otp_value@ ==> (verified matches Err(error) && is_wrong_otp_error(
                error,
            )),
    {
        match pending {
            None => Err(otp_expired_error()),
            Some(cached) => {
                match self.compare_tokens(payload.token.as_str(), cached.token.as_str()) {
                    Err(error) => Err(error),
                    Ok(_) => {
                        if !same_text(cached.otp_value.as_str(), payload.otp.as_str()) {
                            Err(
                                AppError::Unauthorized(
                                    "Неверный OTP".to_owned(),
                                    Some(ErrorCode::WrongOTP),
                                ),
                            )
                        } else {
                            Ok(())
                        }
                    },
                }
            },
        }
    }

    /// Decides whether another password is sent at `now`: the sign-up must
    /// be pending, the request must name its token, and
    /// [`RESEND_OTP_TIMEOUT_SEC`] must have passed since the token was
    /// made.
    pub fn resend_otp(
        &self,
        payload: &ResendOTPRequest,
        claims: &TokenData,
        pending: &Option<CachedSignUpOtpParams>,
        now: u64,
    ) -> (allowed: AppResult<()>)
        ensures
            allowed is Ok <==> (pending matches Some(cached) && payload.token@ == cached.token@
                && claims.created_at + RESEND_OTP_TIMEOUT_SEC <= now),
            pending is None ==> (allowed matches Err(error) && is_otp_expired_error(error)),
            pending matches Some(cached) && payload.token@ != cached.token@ ==> (
            allowed matches Err(error) && is_wrong_token_error(error)),
            pending matches Some(cached) && payload.token@ == cached.token@ && claims.created_at
                + RESEND_OTP_TIMEOUT_SEC > now ==> (allowed matches Err(error)
                && is_too_soon_error(error)),
    {
        match pending {
            None => Err(otp_expired_error()),
            Some(cached) => {
                match self.compare_tokens(payload.token.as_str(), cached.token.as_str()) {
                    Err(error) => Err(error),
                    Ok(_) => {
                        if now < RESEND_OTP_TIMEOUT_SEC || claims.created_at > now
                            - RESEND_OTP_TIMEOUT_SEC {
                            Err(
                                AppError::TooManyRequests(
                                    "OTP was sent recently. Please wait before requesting a new one.".to_owned(),
                                    Some(ErrorCode::ResendOTPTooManyRequests),
                                ),
                            )
                        } else {
                            Ok(())
                        }
                    },
                }
            },
        }
    }

    /// Decides whether the account is made: the sign-up must be pending
    /// and the address confirmed. A sign-up whose address was not
    /// confirmed is forgotten.
    pub fn sign_up_complete(&self, pending: &Option<CachedSignUpOtpParams>) -> (completion:
        Completion)
        ensures
            completion is Proceed <==> (pending matches Some(cached) && cached.verified),
            pending is None ==> (completion matches Completion::Refuse { error, forget }
                && is_otp_expired_error(error) && !forget),
            pending matches Some(cached) && !cached.verified ==> (
            completion matches Completion::Refuse { error, forget } && is_not_verified_error(error)
                && forget),
    {
        match pending {
            None => Completion::Refuse { error: otp_expired_error(), forget: false },
            Some(cached) => {
                if !cached.verified {
                    Completion::Refuse {
                        error: AppError::Unauthorized(
                            "OTP not verified".to_owned(),
                            Some(ErrorCode::OTPNotVerified),
                        ),
                        forget: true,
                    }
                } else {
                    Completion::Proceed
                }
            },
        }
    }

    /// The account to make for a confirmed address; `hashed_password` is
    /// the hash of the password that the request names.
    pub fn new_user(&self, claims: &TokenData, username: String, hashed_password: String) -> (user:
        NewUser)
        ensures
            user.email == claims.email,
            user.username == username,
            user.password == hashed_password,
    {
        NewUser { email: claims.email.clone(), username, password: hashed_password }
    }
}

} // verus!
