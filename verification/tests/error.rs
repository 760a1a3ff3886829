use radio_server::error::{code_number, AppError, ErrorCode, JsonProblem};

#[test]
fn code_numbers() {
    assert_eq!(code_number(None), 1000);
    assert_eq!(code_number(Some(ErrorCode::Unknown)), 1000);
    assert_eq!(code_number(Some(ErrorCode::OTPResendFailed)), 1001);
    assert_eq!(code_number(Some(ErrorCode::WrongOTP)), 1002);
    assert_eq!(code_number(Some(ErrorCode::WrongOTPToken)), 1003);
    assert_eq!(code_number(Some(ErrorCode::OTPExpired)), 1004);
    assert_eq!(code_number(Some(ErrorCode::JWTExpired)), 1005);
    assert_eq!(code_number(Some(ErrorCode::ResendOTPTooManyRequests)), 1006);
    assert_eq!(code_number(Some(ErrorCode::JWTInvalid)), 1007);
    assert_eq!(code_number(Some(ErrorCode::UserAlreadyExists)), 1101);
    assert_eq!(code_number(Some(ErrorCode::SignUpFailed)), 1102);
    assert_eq!(code_number(Some(ErrorCode::OTPNotVerified)), 1103);
    assert_eq!(code_number(Some(ErrorCode::TrackDurationLimit)), 1201);
}

#[test]
fn status_of_each_variant() {
    let m = || "m".to_string();
    assert_eq!(AppError::Database(m(), None).status(), 500);
    assert_eq!(AppError::NotFound(m(), None).status(), 404);
    assert_eq!(AppError::Validation(m(), None).status(), 400);
    assert_eq!(AppError::Unauthorized(m(), None).status(), 401);
    assert_eq!(AppError::BadRequest(m(), None).status(), 400);
    assert_eq!(AppError::Internal(m()).status(), 500);
    assert_eq!(AppError::TooManyRequests(m(), None).status(), 429);
}

#[test]
fn report_of_a_rule_error() {
    let error = AppError::Unauthorized("OTP expired".to_string(), Some(ErrorCode::OTPExpired));
    let report = error.report();
    assert_eq!(report.status, 401);
    assert_eq!(report.message, "OTP expired");
    assert_eq!(report.code, 1004);
    assert_eq!(error.code(), Some(ErrorCode::OTPExpired));
    assert_eq!(error.message(), "OTP expired");
}

#[test]
fn report_of_an_internal_error() {
    let error = AppError::internal("disk full");
    assert_eq!(error, AppError::Internal("disk full".to_string()));
    let report = error.report();
    assert_eq!(report.status, 500);
    assert_eq!(report.message, "Internal server error: disk full");
    assert_eq!(report.code, 1000);
    assert_eq!(error.code(), None);
}

#[test]
fn internal_error_with_prefix() {
    assert_eq!(
        AppError::internal_with_prefix("IO error: ", "not found"),
        AppError::Internal("IO error: not found".to_string())
    );
}

#[test]
fn descriptions_name_the_kind() {
    let m = || "m".to_string();
    assert_eq!(AppError::Database(m(), None).describe(), "Database error: m");
    assert_eq!(AppError::NotFound(m(), None).describe(), "Not found: m");
    assert_eq!(AppError::Validation(m(), None).describe(), "Validation error: m");
    assert_eq!(AppError::Unauthorized(m(), None).describe(), "Unauthorized: m");
    assert_eq!(AppError::BadRequest(m(), None).describe(), "Bad request: m");
    assert_eq!(AppError::Internal(m()).describe(), "Internal server error: m");
    assert_eq!(AppError::TooManyRequests(m(), None).describe(), "Too many requests: m");
}

#[test]
fn unreadable_bodies() {
    assert_eq!(
        AppError::bad_json(JsonProblem::Data, "missing field"),
        AppError::BadRequest("Ошибка данных JSON: missing field".to_string(), None)
    );
    assert_eq!(
        AppError::bad_json(JsonProblem::Syntax, "expected value"),
        AppError::BadRequest("Синтаксическая ошибка JSON: expected value".to_string(), None)
    );
    assert_eq!(
        AppError::bad_json(JsonProblem::MissingContentType, "ignored"),
        AppError::BadRequest(
            "Отсутствует заголовок Content-Type: application/json".to_string(),
            None
        )
    );
    assert_eq!(
        AppError::bad_json(JsonProblem::Other, "too large"),
        AppError::BadRequest("too large".to_string(), None)
    );
    assert_eq!(
        AppError::invalid_fields("otp: length"),
        AppError::BadRequest("otp: length".to_string(), None)
    );
}
