//! Trusted boundary to the outside crates that decode what the remote
//! service sends: `serde_json` for the JSON bodies and `base64` for the
//! challenge metadata header.
//!
//! Each decoded result is a function of the input text alone, so it is given
//! an uninterpreted name; the classifier's and decoders' contracts are exact
//! over those names.

use vstd::prelude::*;

use crate::types::{Listing, Reseller, UserSale};

verus! {

/// What parsing a body as `{"errors":[{"code":..,"message":..},..]}` gives:
/// `None` when the body does not have that shape, `Some(None)` when it does
/// but the error list is empty, and otherwise the first error's code and
/// message.
pub uninterp spec fn error_summary_of(body: Seq<char>) -> Option<Option<(u16, Seq<char>)>>;

/// Relies on `serde_json::from_str` and the `Value` accessors: parsing is a
/// function of the body text alone.  Reads the first entry of the `errors`
/// array; any missing or mistyped part of that entry makes the whole parse
/// fail, as a typed deserialization would.
#[verifier::external_body]
pub(crate) fn parse_error_summary(body: &str) -> (r: Option<Option<(u16, String)>>)
    ensures
        r.deep_view() == error_summary_of(body@),
{
    let v: serde_json::Value = serde_json::from_str(body).ok()?;
    let arr = v.get("errors")?.as_array()?;
    let first = match arr.first() {
        Some(e) => e,
        None => return Some(None),
    };
    let code = u16::try_from(first.get("code")?.as_u64()?).ok()?;
    let message = first.get("message")?.as_str()?.to_string();
    Some(Some((code, message)))
}

/// What decoding a header value as padded standard-alphabet base64 gives;
/// `None` when the input is not valid base64.
pub uninterp spec fn base64_decoded(text: Seq<char>) -> Option<Seq<u8>>;

/// Relies on `base64`'s `STANDARD` engine: decoding is a function of the
/// input text alone.
#[verifier::external_body]
pub(crate) fn base64_decode(text: &str) -> (r: Option<Vec<u8>>)
    ensures
        r.deep_view() == base64_decoded(text@),
{
    base64::engine::Engine::decode(&base64::engine::general_purpose::STANDARD, text).ok()
}

/// What parsing challenge metadata bytes gives: the `challengeId` string
/// field of the decoded JSON object, or `None` when the bytes are not a JSON
/// object carrying one.
pub uninterp spec fn challenge_id_of(metadata: Seq<u8>) -> Option<Seq<char>>;

/// Relies on `serde_json::from_slice` and the `Value` accessors: the parse is
/// a function of the bytes alone.
#[verifier::external_body]
pub(crate) fn parse_challenge_id(metadata: &Vec<u8>) -> (r: Option<String>)
    ensures
        r.deep_view() == challenge_id_of(metadata@),
{
    let v: serde_json::Value = serde_json::from_slice(metadata).ok()?;
    Some(v.get("challengeId")?.as_str()?.to_string())
}

/// What parsing a currency body as `{"robux":..}` gives.
pub uninterp spec fn currency_of(body: Seq<char>) -> Option<u64>;

/// Relies on `serde_json::from_str` and the `Value` accessors: parsing is a
/// function of the body text alone.
#[verifier::external_body]
pub(crate) fn parse_currency(body: &str) -> (r: Option<u64>)
    ensures
        r == currency_of(body@),
{
    let v: serde_json::Value = serde_json::from_str(body).ok()?;
    v.get("robux")?.as_u64()
}

/// What parsing a purchase reply as `{"purchased":..,"errorMsg":..}` gives:
/// the flag and the message, the message empty when the field is absent.
pub uninterp spec fn purchase_reply_of(body: Seq<char>) -> Option<(bool, Seq<char>)>;

/// Relies on `serde_json::from_str` and the `Value` accessors: parsing is a
/// function of the body text alone.
#[verifier::external_body]
pub(crate) fn parse_purchase_reply(body: &str) -> (r: Option<(bool, String)>)
    ensures
        r.deep_view() == purchase_reply_of(body@),
{
    let v: serde_json::Value = serde_json::from_str(body).ok()?;
    let purchased = v.get("purchased")?.as_bool()?;
    let message = match v.get("errorMsg").and_then(|m| m.as_str()) {
        Some(s) => s.to_string(),
        None => String::new(),
    };
    Some((purchased, message))
}

/// What the page frame of a list body gives: the length of the `data` array
/// and the `nextPageCursor` field (`None` when absent or null).  The outer
/// `None` means the body is not a JSON object with a `data` array.
pub uninterp spec fn page_info_of(body: Seq<char>) -> Option<(usize, Option<Seq<char>>)>;

/// Relies on `serde_json::from_str` and the `Value` accessors: parsing is a
/// function of the body text alone.
#[verifier::external_body]
pub(crate) fn parse_page_info(body: &str) -> (r: Option<(usize, Option<String>)>)
    ensures
        r.deep_view() == page_info_of(body@),
{
    let v: serde_json::Value = serde_json::from_str(body).ok()?;
    let n = v.get("data")?.as_array()?.len();
    let cursor = v.get("nextPageCursor").and_then(|c| c.as_str()).map(|s| s.to_string());
    Some((n, cursor))
}

/// The plain values of one resale listing, in the order unique asset id,
/// price, seller id, seller name, serial number.
pub open spec fn listing_model(l: Listing) -> (u64, u64, u64, Seq<char>, Option<u64>) {
    (l.uaid, l.price, l.reseller.user_id, l.reseller.name@, l.serial_number)
}

/// What entry `i` of a resellers body's `data` array parses to, or `None`
/// when the body has no such entry of the expected shape.
pub uninterp spec fn listing_at_of(body: Seq<char>, i: usize) -> Option<
    (u64, u64, u64, Seq<char>, Option<u64>),
>;

/// Relies on `serde_json::from_str` and the `Value` accessors: parsing is a
/// function of the body text and the index alone.
#[verifier::external_body]
pub(crate) fn parse_listing_at(body: &str, i: usize) -> (r: Option<Listing>)
    ensures
        (match r {
            Some(l) => listing_at_of(body@, i) == Some(listing_model(l)),
            None => listing_at_of(body@, i) is None,
        }),
{
    let v: serde_json::Value = serde_json::from_str(body).ok()?;
    let item = v.get("data")?.as_array()?.get(i)?;
    Some(Listing {
        uaid: item.get("userAssetId")?.as_u64()?,
        price: item.get("price")?.as_u64()?,
        reseller: Reseller {
            user_id: item.get("seller")?.get("id")?.as_u64()?,
            name: item.get("seller")?.get("name")?.as_str()?.to_string(),
        },
        serial_number: item.get("serialNumber").and_then(|x| x.as_u64()),
    })
}

/// The plain values of one sale record, in the order sale id, pending flag,
/// buyer id, buyer display name, robux received, asset id, asset name.
pub open spec fn sale_model(s: UserSale) -> (u64, bool, u64, Seq<char>, u64, u64, Seq<char>) {
    (
        s.sale_id,
        s.is_pending,
        s.user_id,
        s.user_display_name@,
        s.robux_received,
        s.asset_id,
        s.asset_name@,
    )
}

/// What entry `i` of a transactions body's `data` array parses to, or `None`
/// when the body has no such entry of the expected shape.
pub uninterp spec fn sale_at_of(body: Seq<char>, i: usize) -> Option<
    (u64, bool, u64, Seq<char>, u64, u64, Seq<char>),
>;

/// Relies on `serde_json::from_str` and the `Value` accessors: parsing is a
/// function of the body text and the index alone.
#[verifier::external_body]
pub(crate) fn parse_sale_at(body: &str, i: usize) -> (r: Option<UserSale>)
    ensures
        (match r {
            Some(s) => sale_at_of(body@, i) == Some(sale_model(s)),
            None => sale_at_of(body@, i) is None,
        }),
{
    let v: serde_json::Value = serde_json::from_str(body).ok()?;
    let item = v.get("data")?.as_array()?.get(i)?;
    Some(UserSale {
        sale_id: item.get("id")?.as_u64()?,
        is_pending: item.get("isPending")?.as_bool()?,
        user_id: item.get("agent")?.get("id")?.as_u64()?,
        user_display_name: item.get("agent")?.get("name")?.as_str()?.to_string(),
        robux_received: item.get("currency")?.get("amount")?.as_u64()?,
        asset_id: item.get("details")?.get("id")?.as_u64()?,
        asset_name: item.get("details")?.get("name")?.as_str()?.to_string(),
    })
}

} // verus!
