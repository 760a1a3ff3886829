//! What a failure of the database means to the caller.

use crate::error::AppError;
use crate::error::ErrorCode;
use vstd::prelude::*;

verus! {

/// The kinds of failure that the rules tell apart.
#[derive(Debug, Clone, Copy, PartialEq, Eq, Structural)]
pub enum DbFailure {
    /// No row matched.
    NotFound,
    /// A row with the same unique value exists.
    UniqueViolation,
    /// Anything else.
    Other,
}

/// The error for a user that could not be created; `detail` is the
/// database's own description of the failure.
pub fn create_user_error(kind: DbFailure, detail: &str) -> (error: AppError)
    ensures
        kind is UniqueViolation ==> (error matches AppError::Validation(message, code)
            && message@ == "Пользователь с таким именем или электронной почтой уже существует"@
            && code == Some(ErrorCode::UserAlreadyExists)),
        !(kind is UniqueViolation) ==> (error matches AppError::Database(message, code)
            && message@ == "Failed to create user: "@ + detail@ && code is None),
{
    match kind {
        DbFailure::UniqueViolation => AppError::Validation(
            "Пользователь с таким именем или электронной почтой уже существует".to_owned(),
            Some(ErrorCode::UserAlreadyExists),
        ),
        _ => {
            let mut message = "Failed to create user: ".to_owned();
            message.append(detail);
            AppError::Database(message, None)
        },
    }
}

/// The error for a user that could not be read.
pub fn find_user_error(kind: DbFailure, detail: &str) -> (error: AppError)
    ensures
        kind is NotFound ==> (error matches AppError::NotFound(message, code) && message@
            == "User not found"@ && code is None),
        !(kind is NotFound) ==> (error matches AppError::Database(message, code) && message@
            == "Failed to retrieve user: "@ + detail@ && code is None),
{
    match kind {
        DbFailure::NotFound => AppError::NotFound("User not found".to_owned(), None),
        _ => {
            let mut message = "Failed to retrieve user: ".to_owned();
            message.append(detail);
            AppError::Database(message, None)
        },
    }
}

/// The error for a catalog that has no track to pick.
pub fn no_tracks_error() -> (error: AppError)
    ensures
        error matches AppError::NotFound(message, code) && message@ == "No tracks in database"@
            && code is None,
{
    AppError::NotFound("No tracks in database".to_owned(), None)
}

} // verus!
