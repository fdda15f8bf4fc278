use qa_core::digits::decimal_string;
use qa_core::errors::{
    classify_db_error, foreign_key_violation_code, handler_error_of, internal_error_message,
    status_code_of, DBError, HandlerError,
};

#[test]
fn invalid_uuid_maps_to_bad_request() {
    let e = DBError::InvalidUUID("bad identifier".to_string());
    match handler_error_of(e) {
        HandlerError::BadRequest(m) => assert_eq!(m, "bad identifier"),
        HandlerError::InternalError(_) => panic!("a malformed identifier must be a caller error"),
    }
}

#[test]
fn other_maps_to_internal_error_without_detail() {
    let e = DBError::Other("connection reset by peer".to_string());
    match handler_error_of(e) {
        HandlerError::BadRequest(_) => panic!("a storage fault must be a server error"),
        HandlerError::InternalError(m) => {
            assert_eq!(m, "internal server error");
            assert!(!m.contains("connection reset"));
        }
    }
}

#[test]
fn internal_error_message_is_fixed() {
    assert_eq!(internal_error_message(), "internal server error");
}

#[test]
fn status_codes() {
    assert_eq!(status_code_of(&HandlerError::BadRequest("x".to_string())), 400);
    assert_eq!(status_code_of(&HandlerError::InternalError("y".to_string())), 500);
}

#[test]
fn foreign_key_code_value() {
    assert_eq!(foreign_key_violation_code(), "23503");
}

#[test]
fn classify_foreign_key_violation_as_invalid_reference() {
    let r = classify_db_error(Some("23503".to_string()), "fk violated".to_string());
    assert!(matches!(r, DBError::InvalidUUID(m) if m == "fk violated"));
}

#[test]
fn classify_unique_violation_as_other() {
    let r = classify_db_error(Some("23505".to_string()), "duplicate key".to_string());
    assert!(matches!(r, DBError::Other(m) if m == "duplicate key"));
}

#[test]
fn classify_uncoded_failure_as_other() {
    let r = classify_db_error(None, "io error".to_string());
    assert!(matches!(r, DBError::Other(m) if m == "io error"));
}

#[test]
fn decimal_rendering() {
    assert_eq!(decimal_string(0), "0");
    assert_eq!(decimal_string(7), "7");
    assert_eq!(decimal_string(10), "10");
    assert_eq!(decimal_string(12345), "12345");
    assert_eq!(decimal_string(u64::MAX), "18446744073709551615");
}
