//! The typed error taxonomy that response classification produces.
//!
//! Every failure of the remote service is surfaced as one of these values;
//! none is process-fatal.  The spec-level mirror types ([`ErrorModel`],
//! [`PurchaseErrorModel`]) let contracts speak of error values whose payloads
//! are character sequences rather than heap strings.

use vstd::prelude::*;

verus! {

/// Remote errors that occur when purchasing a tradable limited item.
///
/// A purchase reply with `purchased == false` carries a free-text message;
/// the library maps each known message to one of these kinds.
#[non_exhaustive]
#[derive(Clone, Debug, Default, PartialEq, Eq, PartialOrd, Ord, Hash)]
pub enum PurchaseTradableLimitedError {
    /// The account has a pending transaction.  The remote service also uses
    /// this as a catch-all when it cannot classify its own failure, so
    /// callers may retry until [`PurchaseTradableLimitedError::ItemNotForSale`]
    /// is returned.
    #[default]
    PendingTransaction,
    /// The item is not for sale.  There is no point in retrying.
    ItemNotForSale,
    /// The account does not have enough robux.  There is no point in retrying.
    NotEnoughRobux,
    /// The listing changed price between lookup and purchase.  Retry-worthy.
    PriceChanged,
    /// The account tried to buy its own item.  There is no point in retrying.
    CannotBuyOwnItem,
    /// An unrecognized message; the original text is preserved.  Retry-worthy.
    UnknownRobloxErrorMsg(String),
}

/// Spec-level mirror of [`PurchaseTradableLimitedError`].
pub enum PurchaseErrorModel {
    PendingTransaction,
    ItemNotForSale,
    NotEnoughRobux,
    PriceChanged,
    CannotBuyOwnItem,
    UnknownRobloxErrorMsg(Seq<char>),
}

impl View for PurchaseTradableLimitedError {
    type V = PurchaseErrorModel;

    open spec fn view(&self) -> PurchaseErrorModel {
        match self {
            PurchaseTradableLimitedError::PendingTransaction => PurchaseErrorModel::PendingTransaction,
            PurchaseTradableLimitedError::ItemNotForSale => PurchaseErrorModel::ItemNotForSale,
            PurchaseTradableLimitedError::NotEnoughRobux => PurchaseErrorModel::NotEnoughRobux,
            PurchaseTradableLimitedError::PriceChanged => PurchaseErrorModel::PriceChanged,
            PurchaseTradableLimitedError::CannotBuyOwnItem => PurchaseErrorModel::CannotBuyOwnItem,
            PurchaseTradableLimitedError::UnknownRobloxErrorMsg(m) => PurchaseErrorModel::UnknownRobloxErrorMsg(
                m@,
            ),
        }
    }
}

/// A failure of one call against the remote service.
#[derive(Clone, Debug, PartialEq, Eq, Hash)]
pub enum RobloxError {
    /// The request failed at the transport level (connection, timeout, TLS).
    TransportFailure,
    /// The call succeeded but its body did not have the expected shape.
    MalformedResponse,
    /// Status 401: the session credential was rejected.
    InvalidRoblosecurity,
    /// A mutating call was sent with a stale anti-forgery token; the payload
    /// is the fresh token the service returned.  Resolved internally by the
    /// retry orchestrator and surfaced only when a retry fails again.
    InvalidXcsrf(String),
    /// The anti-forgery token was rejected and no fresh token came back.
    XcsrfNotReturned,
    /// Status 403 demanding an out-of-band verification challenge; the
    /// payload is the challenge id from the decoded metadata header.
    ChallengeRequired(String),
    /// Status 429: rate limited.
    TooManyRequests,
    /// Status 500.
    InternalServerError,
    /// Status 400; the payload carries the first error's code and message
    /// when the body encoded one, and nothing when it did not.
    BadRequest { code: Option<u16>, message: Option<String> },
    /// A 403 reporting an error code the library does not model.
    UnknownRobloxErrorCode { code: u16, message: String },
    /// A 403 whose shape fits none of the known forms (empty error list,
    /// missing or undecodable challenge metadata).
    UnknownStatus403Format,
    /// A status code outside the classified set.
    UnidentifiedStatusCode(u16),
    /// A purchase reply reporting a business failure.
    PurchaseTradableLimitedError(PurchaseTradableLimitedError),
}

/// Spec-level mirror of [`RobloxError`].
pub enum ErrorModel {
    TransportFailure,
    MalformedResponse,
    InvalidRoblosecurity,
    InvalidXcsrf(Seq<char>),
    XcsrfNotReturned,
    ChallengeRequired(Seq<char>),
    TooManyRequests,
    InternalServerError,
    BadRequest { code: Option<u16>, message: Option<Seq<char>> },
    UnknownRobloxErrorCode { code: u16, message: Seq<char> },
    UnknownStatus403Format,
    UnidentifiedStatusCode(u16),
    PurchaseTradableLimitedError(PurchaseErrorModel),
}

impl View for RobloxError {
    type V = ErrorModel;

    open spec fn view(&self) -> ErrorModel {
        match self {
            RobloxError::TransportFailure => ErrorModel::TransportFailure,
            RobloxError::MalformedResponse => ErrorModel::MalformedResponse,
            RobloxError::InvalidRoblosecurity => ErrorModel::InvalidRoblosecurity,
            RobloxError::InvalidXcsrf(t) => ErrorModel::InvalidXcsrf(t@),
            RobloxError::XcsrfNotReturned => ErrorModel::XcsrfNotReturned,
            RobloxError::ChallengeRequired(id) => ErrorModel::ChallengeRequired(id@),
            RobloxError::TooManyRequests => ErrorModel::TooManyRequests,
            RobloxError::InternalServerError => ErrorModel::InternalServerError,
            RobloxError::BadRequest { code, message } => ErrorModel::BadRequest {
                code: *code,
                message: message.deep_view(),
            },
            RobloxError::UnknownRobloxErrorCode { code, message } => ErrorModel::UnknownRobloxErrorCode {
                code: *code,
                message: message@,
            },
            RobloxError::UnknownStatus403Format => ErrorModel::UnknownStatus403Format,
            RobloxError::UnidentifiedStatusCode(c) => ErrorModel::UnidentifiedStatusCode(*c),
            RobloxError::PurchaseTradableLimitedError(k) => ErrorModel::PurchaseTradableLimitedError(k@),
        }
    }
}

} // verus!
