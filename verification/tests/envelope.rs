use taskcore::error::AppError;
use taskcore::response::ApiResponse;

#[test]
fn success_envelope_carries_data() {
    let r = ApiResponse::success(41_i64);
    assert_eq!(r.code, 0);
    assert_eq!(r.message, "ok");
    assert_eq!(r.data, Some(41));
}

#[test]
fn error_envelope_carries_no_data() {
    let r: ApiResponse<()> = ApiResponse::error(404, "resource not found".to_owned());
    assert_eq!(r.code, 404);
    assert_eq!(r.message, "resource not found");
    assert_eq!(r.data, None);
}

#[test]
fn ok_envelope_is_empty_success() {
    let r = ApiResponse::ok();
    assert_eq!(r.code, 0);
    assert_eq!(r.message, "ok");
    assert_eq!(r.data, None);
}

#[test]
fn error_envelope_composes_status_and_message() {
    let env = AppError::PasswordError.to_envelope();
    assert_eq!(env.code, 401);
    assert_eq!(env.message, "wrong username or password");
    assert_eq!(env.data, None);
    let env = AppError::BadRequest("no title".to_owned()).to_envelope();
    assert_eq!(env.code, 400);
    assert_eq!(env.message, "bad request: no title");
}

#[test]
fn status_codes_match_error_kinds() {
    assert_eq!(AppError::BadRequest("x".to_owned()).status_code(), 400);
    assert_eq!(AppError::NotFound.status_code(), 404);
    assert_eq!(AppError::PasswordError.status_code(), 401);
    assert_eq!(AppError::Unauthorized.status_code(), 401);
    assert_eq!(AppError::Internal.status_code(), 500);
    assert_eq!(AppError::EnvVar("HOME".to_owned()).status_code(), 500);
    assert_eq!(AppError::ConfigParse("port".to_owned()).status_code(), 500);
}

#[test]
fn messages_name_the_failure() {
    assert_eq!(AppError::BadRequest("missing title".to_owned()).message(), "bad request: missing title");
    assert_eq!(AppError::NotFound.message(), "resource not found");
    assert_eq!(AppError::PasswordError.message(), "wrong username or password");
    assert_eq!(AppError::Unauthorized.message(), "unauthorized");
    assert_eq!(AppError::Internal.message(), "internal error, try again later");
    assert_eq!(AppError::EnvVar("DATABASE_URL".to_owned()).message(), "environment variable not set: DATABASE_URL");
    assert_eq!(AppError::ConfigParse("bad port".to_owned()).message(), "configuration parse failure: bad port");
}
