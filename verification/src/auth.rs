//! Signing in and sessions.

use crate::cache_keys::CacheKey;
use crate::error::{AppError, AppResult, ErrorCode};
use crate::models::User;
use crate::text::{decimal_int, decimal_nat, push_decimal, push_decimal_i32};
use argon2::password_hash::SaltString;
use argon2::Argon2;
use argon2::PasswordHasher;
use argon2::PasswordVerifier;
use rand::distributions::Alphanumeric;
use rand::rngs::OsRng;
use rand::Rng;
use vstd::prelude::*;

verus! {

/// How long a session lasts without being used, in seconds.
pub const COOKIE_LIFETIME_SEC: i64 = 604800;

/// The name of the cookie that carries the session id.
pub const SESSION_COOKIE: &'static str = "x-authenticated";

/// Number of characters of a session id.
pub const SESSION_ID_LEN: usize = 32;

/// Who a request comes from.
#[derive(Clone, Copy, Debug, PartialEq, Eq, Structural)]
pub struct AuthData {
    pub user_id: i32,
}

/// A request to sign in.
#[derive(Debug, PartialEq, Eq)]
pub struct SignInRequest {
    pub email: String,
    pub password: String,
}

/// A session as the cache holds it.
#[derive(Debug, PartialEq, Eq)]
pub struct CachedSession {
    pub session_id: String,
    pub created_at: i64,
    pub last_updated: i64,
    pub user_id: i32,
}

/// Whether Argon2, with its default parameters, accepts `password` for the
/// hash that `hash` holds in PHC string format. A text that is no such
/// string accepts nothing.
pub uninterp spec fn argon2_accepts(password: Seq<char>, hash: Seq<char>) -> bool;

/// The hash, in PHC string format, that Argon2 with its default parameters
/// computes for `password` with the salt that `salt` holds in B64; nothing
/// for a text that is no salt, and where Argon2 fails.
pub uninterp spec fn argon2_hashed(password: Seq<char>, salt: Seq<char>) -> Option<Seq<char>>;

/// One of the 62 ASCII letters and digits.
pub open spec fn is_alphanumeric(c: char) -> bool {
    ||| 'a' <= c <= 'z'
    ||| 'A' <= c <= 'Z'
    ||| '0' <= c <= '9'
}

/// Calls `PasswordHash::new` of `password_hash` on `hash` and, where that
/// parses, `verify_password` of `argon2` with the default parameters. The
/// result is the verdict of these two calls; it depends on the two texts
/// alone.
#[verifier::external_body]
fn password_matches(password: &str, hash: &str) -> (accepted: bool)
    ensures
        accepted == argon2_accepts(password@, hash@),
{
    match argon2::password_hash::PasswordHash::new(hash) {
        Ok(parsed) => Argon2::default().verify_password(password.as_bytes(), &parsed).is_ok(),
        Err(_) => false,
    }
}

/// Calls `SaltString::generate` of `password_hash` on the operating
/// system's generator: a salt drawn at random, as B64 text. Nothing is
/// claimed of the text.
#[verifier::external_body]
fn random_salt() -> (salt: String) {
    SaltString::generate(&mut OsRng).as_str().to_owned()
}

/// Calls `SaltString::from_b64` of `password_hash` on `salt` and, where
/// that is a salt, `hash_password` of `argon2` with the default
/// parameters. The result is the hash as text; it depends on the two texts
/// alone.
#[verifier::external_body]
fn hash_with_salt(password: &str, salt: &str) -> (hash: Option<String>)
    ensures
        match hash {
            Some(text) => argon2_hashed(password@, salt@) == Some(text@),
            None => argon2_hashed(password@, salt@) is None,
        },
{
    let salt = SaltString::from_b64(salt).ok()?;
    Argon2::default().hash_password(password.as_bytes(), &salt).ok().map(|hash| hash.to_string())
}

/// Calls `sample` of `rand` with the distribution `Alphanumeric` on the
/// thread's generator: a letter or digit drawn at random.
#[verifier::external_body]
fn random_alphanumeric() -> (c: char)
    ensures
        is_alphanumeric(c),
{
    char::from(rand::thread_rng().sample(Alphanumeric))
}

/// `String::push` of std appends one character.
pub assume_specification[ String::push ](text: &mut String, c: char)
    ensures
        final(text)@ == old(text)@.push(c),
;

/// Whether `error` is the refusal for a password that does not match.
pub open spec fn is_wrong_password_error(error: AppError) -> bool {
    error matches AppError::Unauthorized(message, code) && message@ == "Wrong password"@ && code
        == Some(ErrorCode::SignUpFailed)
}

/// The answer to a password check, given the verdict on the password.
pub fn password_verdict(accepted: bool) -> (checked: AppResult<()>)
    ensures
        accepted <==> checked is Ok,
        checked matches Err(error) ==> is_wrong_password_error(error),
{
    if accepted {
        Ok(())
    } else {
        Err(AppError::Unauthorized("Wrong password".to_owned(), Some(ErrorCode::SignUpFailed)))
    }
}

/// Checks a password against the hash that is stored for the user.
pub fn verify_password(password: &str, hash: &str) -> (checked: AppResult<()>)
    ensures
        argon2_accepts(password@, hash@) <==> checked is Ok,
        checked matches Err(error) ==> is_wrong_password_error(error),
{
    password_verdict(password_matches(password, hash))
}

/// Decides whether a request signs in as `user`, the user found for the
/// request's address: the request's password must match the user's hash.
pub fn sign_in(payload: &SignInRequest, user: &User) -> (checked: AppResult<()>)
    ensures
        argon2_accepts(payload.password@, user.password@) <==> checked is Ok,
        checked matches Err(error) ==> is_wrong_password_error(error),
{
    verify_password(payload.password.as_str(), user.password.as_str())
}

/// The answer to a request for a password's hash, given what the hashing
/// came to.
pub fn hashing_outcome(hash: Option<String>) -> (hashed: AppResult<String>)
    ensures
        hash is Some <==> hashed is Ok,
        hashed matches Ok(text) ==> hash == Some(text),
        hashed matches Err(error) ==> (error matches AppError::Internal(description)
            && description@ == "Failed to hash password"@),
{
    match hash {
        Some(text) => Ok(text),
        None => Err(AppError::internal("Failed to hash password")),
    }
}

/// The hash to store for a new password, with a salt drawn at random.
pub fn hash_password(password: &str) -> (hashed: AppResult<String>)
    ensures
        exists|salt: Seq<char>|
            match hashed {
                Ok(text) => #[trigger] argon2_hashed(password@, salt) == Some(text@),
                Err(error) => argon2_hashed(password@, salt) is None && (
                error matches AppError::Internal(description) && description@
                    == "Failed to hash password"@),
            },
{
    let salt = random_salt();
    let hashed = hashing_outcome(hash_with_salt(password, salt.as_str()));
    proof {
        let witness = salt@;
        assert(match hashed {
            Ok(text) => argon2_hashed(password@, witness) == Some(text@),
            Err(error) => argon2_hashed(password@, witness) is None && (
            error matches AppError::Internal(description) && description@
                == "Failed to hash password"@),
        });
    }
    hashed
}

/// A new session id: [`SESSION_ID_LEN`] letters and digits drawn at random.
pub fn new_session_id() -> (id: String)
    ensures
        id@.len() == SESSION_ID_LEN,
        forall|i: int| 0 <= i < id@.len() ==> is_alphanumeric(#[trigger] id@[i]),
{
    let mut id = String::new();
    let mut n: usize = 0;
    while n < SESSION_ID_LEN
        invariant
            n <= SESSION_ID_LEN,
            id@.len() == n,
            forall|i: int| 0 <= i < id@.len() ==> is_alphanumeric(#[trigger] id@[i]),
        decreases SESSION_ID_LEN - n,
    {
        id.push(random_alphanumeric());
        n = n + 1;
    }
    id
}

/// One field of a cache entry.
#[derive(Debug, PartialEq, Eq)]
pub struct CacheField {
    pub name: String,
    pub value: String,
}

/// Whether `field` has the given name and value.
pub open spec fn is_field(field: CacheField, name: Seq<char>, value: Seq<char>) -> bool {
    field.name@ == name && field.value@ == value
}

/// What the cache is to hold for a session that starts at `now`: its id,
/// the time as both the time it was made and the time it was last used,
/// and the user.
pub fn session_fields(session_id: &str, now: u64, user_id: i32) -> (fields: Vec<CacheField>)
    ensures
        fields@.len() == 4,
        is_field(fields@[0], "session_id"@, session_id@),
        is_field(fields@[1], "created_at"@, decimal_nat(now as nat)),
        is_field(fields@[2], "last_updated"@, decimal_nat(now as nat)),
        is_field(fields@[3], "user_id"@, decimal_int(user_id as int)),
{
    let mut created = String::new();
    push_decimal(&mut created, now);
    let mut updated = String::new();
    push_decimal(&mut updated, now);
    let mut user = String::new();
    push_decimal_i32(&mut user, user_id);
    proof {
        assert(created@ =~= decimal_nat(now as nat));
        assert(updated@ =~= decimal_nat(now as nat));
        assert(user@ =~= decimal_int(user_id as int));
    }
    let mut fields: Vec<CacheField> = Vec::new();
    fields.push(CacheField { name: "session_id".to_owned(), value: session_id.to_owned() });
    fields.push(CacheField { name: "created_at".to_owned(), value: created });
    fields.push(CacheField { name: "last_updated".to_owned(), value: updated });
    fields.push(CacheField { name: "user_id".to_owned(), value: user });
    fields
}

/// What the cache is to hold anew for a session that is used at `now`.
pub fn refreshed_field(now: u64) -> (field: CacheField)
    ensures
        is_field(field, "last_updated"@, decimal_nat(now as nat)),
{
    let mut updated = String::new();
    push_decimal(&mut updated, now);
    proof {
        assert(updated@ =~= decimal_nat(now as nat));
    }
    CacheField { name: "last_updated".to_owned(), value: updated }
}

/// The cache key of a session.
pub fn session_cache_key(session_id: &str) -> (key: String)
    ensures
        key@ == crate::cache_keys::session_key(session_id@),
{
    CacheKey::SESSION(session_id.to_owned()).build_key()
}

/// The session id of a request, given whether the request carries cookies
/// at all and, if so, the value of the session cookie.
pub fn session_id_from(cookies_present: bool, cookie: Option<String>) -> (id: AppResult<String>)
    ensures
        cookies_present && cookie is Some <==> id is Ok,
        id matches Ok(value) ==> cookie == Some(value),
        !cookies_present ==> (id matches Err(AppError::Unauthorized(message, code)) && message@
            == "Missing cookies"@ && code is None),
        cookies_present && cookie is None ==> (id matches Err(
            AppError::Unauthorized(message, code),
        ) && message@ == "Missing session cookie"@ && code is None),
{
    if !cookies_present {
        return Err(AppError::Unauthorized("Missing cookies".to_owned(), None));
    }
    match cookie {
        Some(value) => Ok(value),
        None => Err(AppError::Unauthorized("Missing session cookie".to_owned(), None)),
    }
}

/// Who a request comes from, given what the cache answered for its
/// session: the session's user, or a refusal if the session was not found.
pub fn authenticate(session: AppResult<CachedSession>) -> (who: AppResult<AuthData>)
    ensures
        session is Ok <==> who is Ok,
        session matches Ok(found) ==> who == Ok::<AuthData, AppError>(
            AuthData { user_id: found.user_id },
        ),
        who matches Err(error) ==> (error matches AppError::Unauthorized(message, code)
            && message@ == "Invalid session. Please sign in again."@ && code is None),
{
    match session {
        Ok(found) => Ok(AuthData { user_id: found.user_id }),
        Err(_) => Err(
            AppError::Unauthorized("Invalid session. Please sign in again.".to_owned(), None),
        ),
    }
}

} // verus!
