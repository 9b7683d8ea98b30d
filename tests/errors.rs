use shuttlecraft::errors::{ServiceError, StoreError};

#[test]
fn status_codes_follow_the_table() {
    assert_eq!(ServiceError::CharError.status_code(), 405);
    assert_eq!(ServiceError::UsernameExists.status_code(), 405);
    assert_eq!(ServiceError::AuthorizationRequired.status_code(), 401);
    assert_eq!(ServiceError::BadRequest.status_code(), 400);
    assert_eq!(ServiceError::Timeout.status_code(), 504);
    assert_eq!(ServiceError::UnableToConnectToDb.status_code(), 500);
    assert_eq!(ServiceError::InternalServerError.status_code(), 500);
    assert_eq!(ServiceError::PoWRequired.status_code(), 402);
}

#[test]
fn messages_are_the_display_strings() {
    assert_eq!(ServiceError::CharError.to_string(), "some characters are not permitted");
    assert_eq!(ServiceError::UsernameExists.to_string(), "username exists");
    assert_eq!(ServiceError::AuthorizationRequired.to_string(), "invalid credentials");
    assert_eq!(ServiceError::InternalServerError.to_string(), "internal error");
    assert_eq!(ServiceError::Timeout.to_string(), "timeout");
    assert_eq!(ServiceError::BadRequest.to_string(), "bad request");
    assert_eq!(ServiceError::UnableToConnectToDb.to_string(), "Unable to connect to DB");
    assert_eq!(ServiceError::PoWRequired.to_string(), "PoW required, request not processed");
}

#[test]
fn error_body_is_json() {
    assert_eq!(ServiceError::UsernameExists.error_response(), "{\"error\":\"username exists\"}");
    assert_eq!(ServiceError::Timeout.error_response(), "{\"error\":\"timeout\"}");
}

#[test]
fn store_faults_are_translated() {
    assert_eq!(ServiceError::from_store(StoreError::UniqueViolation), ServiceError::UsernameExists);
    assert_eq!(ServiceError::from_store(StoreError::Unavailable), ServiceError::UnableToConnectToDb);
    assert_eq!(ServiceError::from_store(StoreError::Other), ServiceError::InternalServerError);
}
