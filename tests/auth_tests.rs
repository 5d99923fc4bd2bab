use comment_service::auth::{claims_from_fields, claims_from_header_values, claims_from_token, ClaimFields, MyJWTClaims};
use comment_service::error::ApiError;

const HEADER: &str = "eyJhbGciOiJIUzI1NiIsInR5cCI6IkpXVCJ9";
const FULL_PAYLOAD: &str = "eyJlbWFpbCI6ImFAeC5jb20iLCJyb2xlIjoiUmVnaXN0ZXJlZFVzZXIiLCJleHAiOjE3MDAwMDAwMDB9";
const NO_ROLE_PAYLOAD: &str = "eyJlbWFpbCI6ImFAeC5jb20iLCJleHAiOjE3MDAwMDAwMDB9";
const TEXT_EXP_PAYLOAD: &str = "eyJlbWFpbCI6ImFAeC5jb20iLCJyb2xlIjoiQWRtaW5pc3RyYXRvciIsImV4cCI6InNvb24ifQ";

fn token(payload: &str) -> String {
    format!("{}.{}.c2lnbmF0dXJl", HEADER, payload)
}

#[test]
fn no_authorization_header_is_unauthenticated() {
    let values: Vec<String> = vec![];
    assert_eq!(claims_from_header_values(&values), Err(ApiError::Unauthenticated));
}

#[test]
fn two_authorization_headers_are_a_bad_request() {
    let values = vec![token(FULL_PAYLOAD), token(FULL_PAYLOAD)];
    assert_eq!(claims_from_header_values(&values), Err(ApiError::BadRequest));
}

#[test]
fn one_well_formed_header_yields_its_claims() {
    let values = vec![token(FULL_PAYLOAD)];
    let expected = MyJWTClaims {
        email: "a@x.com".to_string(),
        role: "RegisteredUser".to_string(),
        exp: 1700000000,
    };
    assert_eq!(claims_from_header_values(&values), Ok(expected));
}

#[test]
fn signature_is_not_checked() {
    let forged = format!("{}.{}.bm90LWEtc2lnbmF0dXJl", HEADER, FULL_PAYLOAD);
    assert!(claims_from_token(&forged).is_ok());
}

#[test]
fn token_without_three_parts_is_unauthenticated() {
    assert_eq!(claims_from_token("not-a-token"), Err(ApiError::Unauthenticated));
    assert_eq!(claims_from_token(&format!("{}.{}", HEADER, FULL_PAYLOAD)), Err(ApiError::Unauthenticated));
}

#[test]
fn missing_role_is_unauthenticated() {
    assert_eq!(claims_from_token(&token(NO_ROLE_PAYLOAD)), Err(ApiError::Unauthenticated));
}

#[test]
fn non_numeric_expiry_is_unauthenticated() {
    assert_eq!(claims_from_token(&token(TEXT_EXP_PAYLOAD)), Err(ApiError::Unauthenticated));
}

#[test]
fn undecodable_payload_is_unauthenticated() {
    assert_eq!(claims_from_token(&format!("{}.!!!.sig", HEADER)), Err(ApiError::Unauthenticated));
}

#[test]
fn fields_all_present_make_claims() {
    let fields = ClaimFields {
        email: Some("b@x.com".to_string()),
        role: Some("Administrator".to_string()),
        exp: Some(-5),
    };
    let expected = MyJWTClaims { email: "b@x.com".to_string(), role: "Administrator".to_string(), exp: -5 };
    assert_eq!(claims_from_fields(Some(fields)), Ok(expected));
}

#[test]
fn fields_missing_one_are_unauthenticated() {
    let fields = ClaimFields { email: Some("b@x.com".to_string()), role: None, exp: Some(1) };
    assert_eq!(claims_from_fields(Some(fields)), Err(ApiError::Unauthenticated));
    assert_eq!(claims_from_fields(None), Err(ApiError::Unauthenticated));
}

#[test]
fn error_status_codes() {
    assert_eq!(ApiError::Unauthenticated.status_code(), 401);
    assert_eq!(ApiError::Unauthorized.status_code(), 401);
    assert_eq!(ApiError::NotFound.status_code(), 404);
    assert_eq!(ApiError::BadRequest.status_code(), 400);
    assert_eq!(ApiError::ServiceUnavailable.status_code(), 503);
}
