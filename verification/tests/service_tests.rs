use chargemap_proxy::auth::{check_api_key, API_KEY_HEADER};
use chargemap_proxy::error::AppError;
use chargemap_proxy::health::health_status;

#[test]
fn api_key_must_match_exactly() {
    assert_eq!(check_api_key(Some("test-app-key"), "test-app-key"), Ok(()));
    assert_eq!(check_api_key(Some("test-app-key "), "test-app-key"), Err(401));
    assert_eq!(check_api_key(None, "test-app-key"), Err(401));
    assert_eq!(check_api_key(Some(""), ""), Ok(()));
    assert_eq!(API_KEY_HEADER, "x-api-key");
}

#[test]
fn errors_answer_500_with_a_generic_message() {
    let err = AppError(anyhow::Error::msg("database is on fire"));
    assert_eq!(err.status_code(), 500);
    assert_eq!(err.client_message(), "Something went wrong with the request");
}

#[test]
fn health_answers() {
    assert_eq!(health_status(true), (200, "OK"));
    assert_eq!(health_status(false), (503, "Database connection failed"));
}
