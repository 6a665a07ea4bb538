//! Classification of raw HTTP responses into the typed error taxonomy.
//!
//! The remote service overloads status 403 to mean either "anti-forgery
//! token invalid or missing" or "verification challenge required"; the
//! disambiguation lives here, in one routine, so that the domain operations
//! stay ignorant of the quirk.

use vstd::prelude::*;

use crate::error::{ErrorModel, RobloxError};
use crate::raw::{
    base64_decode, base64_decoded, challenge_id_of, error_summary_of, parse_challenge_id,
    parse_error_summary,
};

verus! {

/// A response of the remote service, reduced to the plain values the
/// classifier reads: the status code, the body text, and the two headers
/// that matter for 403 handling.
pub struct RawResponse {
    /// The HTTP status code.
    pub status: u16,
    /// The body text.
    pub body: String,
    /// The fresh anti-forgery token header, when the service sent one.
    pub xcsrf_header: Option<String>,
    /// The base64-encoded challenge metadata header, when present.
    pub challenge_metadata_header: Option<String>,
}

/// Spec-level mirror of [`RawResponse`].
pub struct RawResponseModel {
    pub status: u16,
    pub body: Seq<char>,
    pub xcsrf_header: Option<Seq<char>>,
    pub challenge_metadata_header: Option<Seq<char>>,
}

impl View for RawResponse {
    type V = RawResponseModel;

    open spec fn view(&self) -> RawResponseModel {
        RawResponseModel {
            status: self.status,
            body: self.body@,
            xcsrf_header: self.xcsrf_header.deep_view(),
            challenge_metadata_header: self.challenge_metadata_header.deep_view(),
        }
    }
}

/// The outcome of one transport round trip, as the application observed it:
/// either a response or a transport-level failure (connection, timeout, TLS).
pub enum RequestOutcome {
    Response(RawResponse),
    TransportFailure,
}

/// Spec-level mirror of [`RequestOutcome`].
pub enum OutcomeModel {
    Response(RawResponseModel),
    TransportFailure,
}

impl View for RequestOutcome {
    type V = OutcomeModel;

    open spec fn view(&self) -> OutcomeModel {
        match self {
            RequestOutcome::Response(r) => OutcomeModel::Response(r@),
            RequestOutcome::TransportFailure => OutcomeModel::TransportFailure,
        }
    }
}

/// What validating one transport outcome yields: the body of a status-200
/// response, or the classified typed error of everything else.
pub open spec fn spec_validate(outcome: OutcomeModel) -> Result<Seq<char>, ErrorModel> {
    match outcome {
        OutcomeModel::TransportFailure => Err(ErrorModel::TransportFailure),
        OutcomeModel::Response(r) => if r.status == 200 {
            Ok(r.body)
        } else {
            Err(spec_classify_error(r))
        },
    }
}

/// The fixed message the remote service uses on a 403 that demands an
/// out-of-band verification challenge.
pub open spec fn spec_challenge_message() -> Seq<char> {
    "Challenge is required to authorize the request"@
}

/// The token-refresh outcome: the fresh token when the header carried one,
/// else the token-missing error.
pub open spec fn spec_token_refresh(xcsrf: Option<Seq<char>>) -> ErrorModel {
    match xcsrf {
        Some(t) => ErrorModel::InvalidXcsrf(t),
        None => ErrorModel::XcsrfNotReturned,
    }
}

/// What the challenge metadata header yields: the challenge id when the
/// header is present, decodes as base64, and parses as metadata; else the
/// unrecoverable format error.
pub open spec fn spec_challenge_outcome(metadata_header: Option<Seq<char>>) -> ErrorModel {
    match metadata_header {
        None => ErrorModel::UnknownStatus403Format,
        Some(encoded) => match base64_decoded(encoded) {
            None => ErrorModel::UnknownStatus403Format,
            Some(bytes) => match challenge_id_of(bytes) {
                None => ErrorModel::UnknownStatus403Format,
                Some(id) => ErrorModel::ChallengeRequired(id),
            },
        },
    }
}

/// Classification of a 403 response.
///
/// An unparseable body, or a first error with the sentinel code 0, means the
/// anti-forgery token was rejected: the outcome is a token refresh.  A parsed
/// body whose error list is empty is an unknown format.  A first error with
/// any message other than the fixed challenge literal is surfaced verbatim.
/// Otherwise a challenge is genuinely required and the metadata header
/// decides the outcome.
pub open spec fn spec_classify_403(
    body: Seq<char>,
    xcsrf: Option<Seq<char>>,
    metadata_header: Option<Seq<char>>,
) -> ErrorModel {
    match error_summary_of(body) {
        None => spec_token_refresh(xcsrf),
        Some(None) => ErrorModel::UnknownStatus403Format,
        Some(Some((code, message))) => if code == 0 {
            spec_token_refresh(xcsrf)
        } else if message != spec_challenge_message() {
            ErrorModel::UnknownRobloxErrorCode { code, message }
        } else {
            spec_challenge_outcome(metadata_header)
        },
    }
}

/// Classification of a 400 response: the first error of a parseable body is
/// surfaced with its code and message; anything else is a bad request with
/// neither.
pub open spec fn spec_classify_400(body: Seq<char>) -> ErrorModel {
    match error_summary_of(body) {
        Some(Some((code, message))) => ErrorModel::BadRequest {
            code: Some(code),
            message: Some(message),
        },
        _ => ErrorModel::BadRequest { code: None, message: None },
    }
}

/// Classification of a response by status code, for every status but 200.
pub open spec fn spec_classify_error(r: RawResponseModel) -> ErrorModel
    recommends
        r.status != 200,
{
    if r.status == 400 {
        spec_classify_400(r.body)
    } else if r.status == 401 {
        ErrorModel::InvalidRoblosecurity
    } else if r.status == 403 {
        spec_classify_403(r.body, r.xcsrf_header, r.challenge_metadata_header)
    } else if r.status == 429 {
        ErrorModel::TooManyRequests
    } else if r.status == 500 {
        ErrorModel::InternalServerError
    } else {
        ErrorModel::UnidentifiedStatusCode(r.status)
    }
}

/// Processes a 403 response body and headers into the typed error.
pub fn process_403(
    body: &str,
    xcsrf_header: Option<String>,
    challenge_metadata_header: Option<String>,
) -> (e: RobloxError)
    ensures
        e@ == spec_classify_403(
            body@,
            xcsrf_header.deep_view(),
            challenge_metadata_header.deep_view(),
        ),
{
    match parse_error_summary(body) {
        None => token_refresh(xcsrf_header),
        Some(None) => RobloxError::UnknownStatus403Format,
        Some(Some((code, message))) => {
            if code == 0 {
                token_refresh(xcsrf_header)
            } else {
                let challenge_literal = String::from_str(
                    "Challenge is required to authorize the request",
                );
                if message != challenge_literal {
                    RobloxError::UnknownRobloxErrorCode { code, message }
                } else {
                    challenge_outcome(challenge_metadata_header)
                }
            }
        },
    }
}

/// The token-refresh outcome of a rejected anti-forgery token.
fn token_refresh(xcsrf_header: Option<String>) -> (e: RobloxError)
    ensures
        e@ == spec_token_refresh(xcsrf_header.deep_view()),
{
    match xcsrf_header {
        Some(t) => RobloxError::InvalidXcsrf(t),
        None => RobloxError::XcsrfNotReturned,
    }
}

/// Decodes the challenge metadata header into the challenge-required error,
/// or the unrecoverable format error when the header is absent or malformed.
fn challenge_outcome(metadata_header: Option<String>) -> (e: RobloxError)
    ensures
        e@ == spec_challenge_outcome(metadata_header.deep_view()),
{
    match metadata_header {
        None => RobloxError::UnknownStatus403Format,
        Some(encoded) => match base64_decode(encoded.as_str()) {
            None => RobloxError::UnknownStatus403Format,
            Some(bytes) => {
                proof {
                    assert(bytes@ =~= bytes.deep_view());
                }
                match parse_challenge_id(&bytes) {
                    None => RobloxError::UnknownStatus403Format,
                    Some(id) => RobloxError::ChallengeRequired(id),
                }
            },
        },
    }
}

/// Processes a 400 response body into the typed error.
pub fn process_400(body: &str) -> (e: RobloxError)
    ensures
        e@ == spec_classify_400(body@),
{
    match parse_error_summary(body) {
        Some(Some((code, message))) => RobloxError::BadRequest {
            code: Some(code),
            message: Some(message),
        },
        _ => RobloxError::BadRequest { code: None, message: None },
    }
}

/// Maps a response to its body on status 200 and to the classified typed
/// error on every other status.
pub fn handle_non_200_status_codes(response: RawResponse) -> (r: Result<String, RobloxError>)
    ensures
        r is Ok <==> response@.status == 200,
        (match r {
            Ok(body) => body@ == response@.body,
            Err(e) => e@ == spec_classify_error(response@),
        }),
{
    let RawResponse { status, body, xcsrf_header, challenge_metadata_header } = response;
    if status == 200 {
        Ok(body)
    } else if status == 400 {
        Err(process_400(body.as_str()))
    } else if status == 401 {
        Err(RobloxError::InvalidRoblosecurity)
    } else if status == 403 {
        Err(process_403(body.as_str(), xcsrf_header, challenge_metadata_header))
    } else if status == 429 {
        Err(RobloxError::TooManyRequests)
    } else if status == 500 {
        Err(RobloxError::InternalServerError)
    } else {
        Err(RobloxError::UnidentifiedStatusCode(status))
    }
}

/// Catches every failure of one transport round trip: a transport-level
/// failure becomes the transport error, and a response with a status other
/// than 200 becomes its classified typed error.  A returned body is
/// guaranteed to come from a status-200 response.
pub fn validate_request_result(outcome: RequestOutcome) -> (r: Result<String, RobloxError>)
    ensures
        r matches Ok(body) ==> spec_validate(outcome@) == Ok::<Seq<char>, ErrorModel>(body@),
        r matches Err(e) ==> spec_validate(outcome@) == Err::<Seq<char>, ErrorModel>(e@),
{
    match outcome {
        RequestOutcome::Response(resp) => handle_non_200_status_codes(resp),
        RequestOutcome::TransportFailure => Err(RobloxError::TransportFailure),
    }
}

} // verus!
