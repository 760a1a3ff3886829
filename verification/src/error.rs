//! The error type of the service and what a client is told of an error.

use vstd::prelude::*;

verus! {

/// A number that tells a client which rule a request ran into.
#[derive(Debug, Clone, Copy, PartialEq, Eq, Structural)]
pub enum ErrorCode {
    Unknown,
    OTPResendFailed,
    WrongOTP,
    OTPExpired,
    WrongOTPToken,
    UserAlreadyExists,
    OTPNotVerified,
    JWTExpired,
    ResendOTPTooManyRequests,
    SignUpFailed,
    JWTInvalid,
    TrackDurationLimit,
}

/// What can go wrong while serving a request or running the feed. All
/// variants but `Internal` carry a message and, where a rule was broken, its
/// code; `Internal` carries the description of the underlying failure.
#[derive(Debug, PartialEq, Eq)]
pub enum AppError {
    Database(String, Option<ErrorCode>),
    NotFound(String, Option<ErrorCode>),
    Validation(String, Option<ErrorCode>),
    Unauthorized(String, Option<ErrorCode>),
    BadRequest(String, Option<ErrorCode>),
    Internal(String),
    TooManyRequests(String, Option<ErrorCode>),
}

pub type AppResult<T> = Result<T, AppError>;

/// The number sent for a code; 1000 where there is none.
pub open spec fn code_number_of(code: Option<ErrorCode>) -> int {
    match code {
        Some(ErrorCode::OTPResendFailed) => 1001,
        Some(ErrorCode::WrongOTP) => 1002,
        Some(ErrorCode::WrongOTPToken) => 1003,
        Some(ErrorCode::OTPExpired) => 1004,
        Some(ErrorCode::UserAlreadyExists) => 1101,
        Some(ErrorCode::OTPNotVerified) => 1103,
        Some(ErrorCode::Unknown) => 1000,
        Some(ErrorCode::JWTExpired) => 1005,
        Some(ErrorCode::ResendOTPTooManyRequests) => 1006,
        Some(ErrorCode::JWTInvalid) => 1007,
        Some(ErrorCode::SignUpFailed) => 1102,
        Some(ErrorCode::TrackDurationLimit) => 1201,
        None => 1000,
    }
}

/// The HTTP status that an error is answered with.
pub open spec fn status_of(error: AppError) -> int {
    match error {
        AppError::Database(_, _) => 500,
        AppError::NotFound(_, _) => 404,
        AppError::Validation(_, _) => 400,
        AppError::Unauthorized(_, _) => 401,
        AppError::BadRequest(_, _) => 400,
        AppError::Internal(_) => 500,
        AppError::TooManyRequests(_, _) => 429,
    }
}

/// The code that an error carries; an internal error carries none.
pub open spec fn code_of(error: AppError) -> Option<ErrorCode> {
    match error {
        AppError::Database(_, code) => code,
        AppError::NotFound(_, code) => code,
        AppError::Validation(_, code) => code,
        AppError::Unauthorized(_, code) => code,
        AppError::BadRequest(_, code) => code,
        AppError::Internal(_) => None,
        AppError::TooManyRequests(_, code) => code,
    }
}

/// The message that a client is sent: the error's own, or, for an internal
/// error, its description behind a fixed prefix.
pub open spec fn message_of(error: AppError) -> Seq<char> {
    match error {
        AppError::Database(msg, _) => msg@,
        AppError::NotFound(msg, _) => msg@,
        AppError::Validation(msg, _) => msg@,
        AppError::Unauthorized(msg, _) => msg@,
        AppError::BadRequest(msg, _) => msg@,
        AppError::Internal(description) => "Internal server error: "@ + description@,
        AppError::TooManyRequests(msg, _) => msg@,
    }
}

/// What an error says of itself in a log: its kind and its message.
pub open spec fn description_of(error: AppError) -> Seq<char> {
    match error {
        AppError::Database(msg, _) => "Database error: "@ + msg@,
        AppError::NotFound(msg, _) => "Not found: "@ + msg@,
        AppError::Validation(msg, _) => "Validation error: "@ + msg@,
        AppError::Unauthorized(msg, _) => "Unauthorized: "@ + msg@,
        AppError::BadRequest(msg, _) => "Bad request: "@ + msg@,
        AppError::Internal(description) => "Internal server error: "@ + description@,
        AppError::TooManyRequests(msg, _) => "Too many requests: "@ + msg@,
    }
}

/// What went wrong with the JSON body of a request.
#[derive(Debug, Clone, Copy, PartialEq, Eq, Structural)]
pub enum JsonProblem {
    /// The body is JSON but not what the endpoint takes.
    Data,
    /// The body is not JSON.
    Syntax,
    /// The request does not declare a JSON body.
    MissingContentType,
    /// Anything else.
    Other,
}

/// The message for a request whose body could not be read; `detail` is the
/// reader's own description of the problem.
pub open spec fn json_problem_message(problem: JsonProblem, detail: Seq<char>) -> Seq<char> {
    match problem {
        JsonProblem::Data => "Ошибка данных JSON: "@ + detail,
        JsonProblem::Syntax => "Синтаксическая ошибка JSON: "@ + detail,
        JsonProblem::MissingContentType => "Отсутствует заголовок Content-Type: application/json"@,
        JsonProblem::Other => detail,
    }
}

/// The number sent for a code; 1000 where there is none.
pub fn code_number(code: Option<ErrorCode>) -> (number: u16)
    ensures
        number == code_number_of(code),
{
    match code {
        Some(ErrorCode::OTPResendFailed) => 1001,
        Some(ErrorCode::WrongOTP) => 1002,
        Some(ErrorCode::WrongOTPToken) => 1003,
        Some(ErrorCode::OTPExpired) => 1004,
        Some(ErrorCode::UserAlreadyExists) => 1101,
        Some(ErrorCode::OTPNotVerified) => 1103,
        Some(ErrorCode::Unknown) => 1000,
        Some(ErrorCode::JWTExpired) => 1005,
        Some(ErrorCode::ResendOTPTooManyRequests) => 1006,
        Some(ErrorCode::JWTInvalid) => 1007,
        Some(ErrorCode::SignUpFailed) => 1102,
        Some(ErrorCode::TrackDurationLimit) => 1201,
        None => 1000,
    }
}

/// What a client is told of an error.
pub struct ErrorReport {
    /// The HTTP status.
    pub status: u16,
    /// The message.
    pub message: String,
    /// The number of the error's code.
    pub code: u16,
}

impl AppError {
    /// An internal error with the given description.
    pub fn internal(description: &str) -> (error: AppError)
        ensures
            error matches AppError::Internal(d) && d@ == description@,
    {
        AppError::Internal(description.to_owned())
    }

    /// An internal error whose description is `description` behind `prefix`.
    pub fn internal_with_prefix(prefix: &str, description: &str) -> (error: AppError)
        ensures
            error matches AppError::Internal(d) && d@ == prefix@ + description@,
    {
        let mut text = prefix.to_owned();
        text.append(description);
        AppError::Internal(text)
    }

    /// The refusal of a request whose body could not be read.
    pub fn bad_json(problem: JsonProblem, detail: &str) -> (error: AppError)
        ensures
            error matches AppError::BadRequest(message, code) && message@ == json_problem_message(
                problem,
                detail@,
            ) && code is None,
    {
        let message = match problem {
            JsonProblem::Data => {
                let mut text = "Ошибка данных JSON: ".to_owned();
                text.append(detail);
                text
            },
            JsonProblem::Syntax => {
                let mut text = "Синтаксическая ошибка JSON: ".to_owned();
                text.append(detail);
                text
            },
            JsonProblem::MissingContentType => {
                "Отсутствует заголовок Content-Type: application/json".to_owned()
            },
            JsonProblem::Other => detail.to_owned(),
        };
        AppError::BadRequest(message, None)
    }

    /// The refusal of a request that breaks a rule on its fields; `detail`
    /// names the fields and the rules.
    pub fn invalid_fields(detail: &str) -> (error: AppError)
        ensures
            error matches AppError::BadRequest(message, code) && message@ == detail@
                && code is None,
    {
        AppError::BadRequest(detail.to_owned(), None)
    }

    /// What the error says of itself in a log.
    pub fn describe(&self) -> (text: String)
        ensures
            text@ == description_of(*self),
    {
        let (kind, message) = match self {
            AppError::Database(msg, _) => ("Database error: ", msg),
            AppError::NotFound(msg, _) => ("Not found: ", msg),
            AppError::Validation(msg, _) => ("Validation error: ", msg),
            AppError::Unauthorized(msg, _) => ("Unauthorized: ", msg),
            AppError::BadRequest(msg, _) => ("Bad request: ", msg),
            AppError::Internal(description) => ("Internal server error: ", description),
            AppError::TooManyRequests(msg, _) => ("Too many requests: ", msg),
        };
        let mut text = kind.to_owned();
        text.append(message.as_str());
        text
    }

    /// The HTTP status that the error is answered with.
    pub fn status(&self) -> (status: u16)
        ensures
            status == status_of(*self),
    {
        match self {
            AppError::Database(_, _) => 500,
            AppError::NotFound(_, _) => 404,
            AppError::Validation(_, _) => 400,
            AppError::Unauthorized(_, _) => 401,
            AppError::BadRequest(_, _) => 400,
            AppError::Internal(_) => 500,
            AppError::TooManyRequests(_, _) => 429,
        }
    }

    /// The code that the error carries.
    pub fn code(&self) -> (code: Option<ErrorCode>)
        ensures
            code == code_of(*self),
    {
        match self {
            AppError::Database(_, code) => *code,
            AppError::NotFound(_, code) => *code,
            AppError::Validation(_, code) => *code,
            AppError::Unauthorized(_, code) => *code,
            AppError::BadRequest(_, code) => *code,
            AppError::Internal(_) => None,
            AppError::TooManyRequests(_, code) => *code,
        }
    }

    /// The message that a client is sent.
    pub fn message(&self) -> (message: String)
        ensures
            message@ == message_of(*self),
    {
        match self {
            AppError::Database(msg, _) => msg.clone(),
            AppError::NotFound(msg, _) => msg.clone(),
            AppError::Validation(msg, _) => msg.clone(),
            AppError::Unauthorized(msg, _) => msg.clone(),
            AppError::BadRequest(msg, _) => msg.clone(),
            AppError::Internal(description) => {
                let mut text = "Internal server error: ".to_owned();
                text.append(description.as_str());
                text
            },
            AppError::TooManyRequests(msg, _) => msg.clone(),
        }
    }

    /// Status, message and code number of the answer to a failed request.
    pub fn report(&self) -> (report: ErrorReport)
        ensures
            report.status == status_of(*self),
            report.message@ == message_of(*self),
            report.code == code_number_of(code_of(*self)),
    {
        ErrorReport { status: self.status(), message: self.message(), code: code_number(self.code()) }
    }
}

} // verus!
