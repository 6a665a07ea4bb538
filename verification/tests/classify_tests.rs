//! Scenario tests of the response classifier.

use roblox_api::classify::{
    handle_non_200_status_codes, process_400, process_403, validate_request_result, RawResponse,
    RequestOutcome,
};
use roblox_api::error::RobloxError;

fn resp(status: u16, body: &str) -> RawResponse {
    RawResponse {
        status,
        body: body.to_string(),
        xcsrf_header: None,
        challenge_metadata_header: None,
    }
}

#[test]
fn status_200_returns_body() {
    let r = handle_non_200_status_codes(resp(200, "{\"robux\":3}"));
    assert_eq!(r, Ok("{\"robux\":3}".to_string()));
}

#[test]
fn status_400_with_coded_error_carries_code_and_message() {
    let r = handle_non_200_status_codes(resp(400, "{\"errors\":[{\"code\":7,\"message\":\"X\"}]}"));
    assert_eq!(
        r,
        Err(RobloxError::BadRequest { code: Some(7), message: Some("X".to_string()) })
    );
}

#[test]
fn status_400_with_unparseable_body_is_bad_request() {
    let r = process_400("not json");
    assert_eq!(r, RobloxError::BadRequest { code: None, message: None });
}

#[test]
fn status_400_with_empty_error_list_is_bad_request() {
    let r = process_400("{\"errors\":[]}");
    assert_eq!(r, RobloxError::BadRequest { code: None, message: None });
}

#[test]
fn status_401_with_any_body_is_invalid_roblosecurity() {
    let r = handle_non_200_status_codes(resp(401, "whatever"));
    assert_eq!(r, Err(RobloxError::InvalidRoblosecurity));
    let r = handle_non_200_status_codes(resp(401, "{\"errors\":[{\"code\":0,\"message\":\"\"}]}"));
    assert_eq!(r, Err(RobloxError::InvalidRoblosecurity));
}

#[test]
fn status_429_is_rate_limited_regardless_of_body() {
    let r = handle_non_200_status_codes(resp(429, "{\"errors\":[{\"code\":9,\"message\":\"m\"}]}"));
    assert_eq!(r, Err(RobloxError::TooManyRequests));
    let r = handle_non_200_status_codes(resp(429, ""));
    assert_eq!(r, Err(RobloxError::TooManyRequests));
}

#[test]
fn status_500_is_internal_server_error() {
    let r = handle_non_200_status_codes(resp(500, "x"));
    assert_eq!(r, Err(RobloxError::InternalServerError));
}

#[test]
fn other_status_is_unidentified() {
    let r = handle_non_200_status_codes(resp(418, "x"));
    assert_eq!(r, Err(RobloxError::UnidentifiedStatusCode(418)));
}

#[test]
fn transport_failure_is_classified() {
    let r = validate_request_result(RequestOutcome::TransportFailure);
    assert_eq!(r, Err(RobloxError::TransportFailure));
}

#[test]
fn forbidden_unparseable_body_with_token_header_is_stale_token() {
    let r = process_403("not json at all", Some("fresh-token".to_string()), None);
    assert_eq!(r, RobloxError::InvalidXcsrf("fresh-token".to_string()));
}

#[test]
fn forbidden_unparseable_body_without_token_header_is_token_missing() {
    let r = process_403("not json at all", None, None);
    assert_eq!(r, RobloxError::XcsrfNotReturned);
}

#[test]
fn forbidden_code_zero_with_token_header_is_stale_token() {
    let body = "{\"errors\":[{\"code\":0,\"message\":\"Token Validation Failed\"}]}";
    let r = process_403(body, Some("rotated".to_string()), None);
    assert_eq!(r, RobloxError::InvalidXcsrf("rotated".to_string()));
}

#[test]
fn forbidden_code_zero_without_token_header_is_token_missing() {
    let body = "{\"errors\":[{\"code\":0,\"message\":\"anything\"}]}";
    let r = process_403(body, None, None);
    assert_eq!(r, RobloxError::XcsrfNotReturned);
}

#[test]
fn forbidden_empty_error_list_is_unknown_format() {
    let r = process_403("{\"errors\":[]}", Some("tok".to_string()), None);
    assert_eq!(r, RobloxError::UnknownStatus403Format);
}

#[test]
fn forbidden_other_message_is_unknown_remote_error() {
    let body = "{\"errors\":[{\"code\":9,\"message\":\"Insufficient permissions\"}]}";
    let r = process_403(body, Some("tok".to_string()), None);
    assert_eq!(
        r,
        RobloxError::UnknownRobloxErrorCode { code: 9, message: "Insufficient permissions".to_string() }
    );
}

fn challenge_body() -> String {
    "{\"errors\":[{\"code\":3,\"message\":\"Challenge is required to authorize the request\"}]}"
        .to_string()
}

#[test]
fn forbidden_challenge_with_valid_metadata_is_challenge_required() {
    let metadata = "{\"challengeId\":\"abc-123\",\"actionType\":\"Generic\"}";
    let encoded =
        base64::engine::Engine::encode(&base64::engine::general_purpose::STANDARD, metadata);
    let r = process_403(&challenge_body(), Some("tok".to_string()), Some(encoded));
    assert_eq!(r, RobloxError::ChallengeRequired("abc-123".to_string()));
}

#[test]
fn forbidden_challenge_without_metadata_header_is_unknown_format() {
    let r = process_403(&challenge_body(), Some("tok".to_string()), None);
    assert_eq!(r, RobloxError::UnknownStatus403Format);
}

#[test]
fn forbidden_challenge_with_invalid_base64_is_unknown_format() {
    let r = process_403(
        &challenge_body(),
        None,
        Some("!!!not-base64!!!".to_string()),
    );
    assert_eq!(r, RobloxError::UnknownStatus403Format);
}

#[test]
fn forbidden_challenge_with_non_json_metadata_is_unknown_format() {
    let encoded =
        base64::engine::Engine::encode(&base64::engine::general_purpose::STANDARD, "not json");
    let r = process_403(&challenge_body(), None, Some(encoded));
    assert_eq!(r, RobloxError::UnknownStatus403Format);
}

#[test]
fn forbidden_challenge_metadata_without_challenge_id_is_unknown_format() {
    let encoded = base64::engine::Engine::encode(
        &base64::engine::general_purpose::STANDARD,
        "{\"actionType\":\"Generic\"}",
    );
    let r = process_403(&challenge_body(), None, Some(encoded));
    assert_eq!(r, RobloxError::UnknownStatus403Format);
}
