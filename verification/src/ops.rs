//! The domain operations, split at the transport edge.
//!
//! Each operation is a pair: a *plan* that fixes everything the application
//! must send (method, URL, body, whether the anti-forgery token is attached),
//! and an *interpreter* that turns the transport outcome into the operation's
//! typed result.  The application's only job between the two is the round
//! trip itself.

use vstd::prelude::*;

use crate::classify::{spec_validate, validate_request_result, RequestOutcome};
use crate::economy::{
    decode_purchase_response, decode_resellers_response, decode_robux_response,
    decode_user_sales_response, spec_purchase_kind,
};
use crate::error::{ErrorModel, RobloxError};
use crate::raw::{
    currency_of, listing_at_of, listing_model, page_info_of, purchase_reply_of, sale_at_of,
    sale_model,
};
use crate::types::{Limit, Listing, UserSale};
use crate::urls::{
    purchase_body, purchase_url, put_on_sale_body, resellers_url, robux_url, spec_purchase_body,
    spec_purchase_url, spec_put_on_sale_body, spec_resellers_url, spec_robux_url,
    spec_toggle_sale_url, spec_user_sales_url, take_off_sale_body, toggle_sale_url,
    user_sales_url,
};

verus! {

/// The HTTP method of a planned request.
#[derive(Clone, Copy, Debug, PartialEq, Eq, Structural)]
pub enum HttpMethod {
    Get,
    Post,
    Patch,
}

/// Everything the application must send for one operation.  The session
/// credential accompanies every request; the anti-forgery token only those
/// plans that ask for it.
pub struct RequestPlan {
    /// The HTTP method.
    pub method: HttpMethod,
    /// The full request URL.
    pub url: String,
    /// The JSON body, for the methods that carry one.
    pub body: Option<String>,
    /// Whether the current anti-forgery token must be attached; true exactly
    /// for the state-mutating plans.
    pub attach_xcsrf: bool,
}

/// The headers of one authenticated request, in order: the session cookie,
/// the fixed user agent, the anti-forgery token when one is attached, and the
/// JSON content type when a body is carried.
pub open spec fn spec_request_headers(
    cookie: Seq<char>,
    xcsrf: Option<Seq<char>>,
    has_body: bool,
) -> Seq<(Seq<char>, Seq<char>)> {
    let base = seq![("cookie"@, cookie), ("user-agent"@, "Roblox/WinInet"@)];
    let with_token = match xcsrf {
        Some(t) => base.push(("x-csrf-token"@, t)),
        None => base,
    };
    if has_body {
        with_token.push(("content-type"@, "application/json"@))
    } else {
        with_token
    }
}

/// Assembles the header list of one request: the formatted session cookie,
/// the token for mutating calls, and the content type when a body is sent.
pub fn request_headers(cookie: String, xcsrf: Option<String>, has_body: bool) -> (r: Vec<
    (String, String),
>)
    ensures
        r.deep_view() == spec_request_headers(cookie@, xcsrf.deep_view(), has_body),
{
    let ghost cookie_text = cookie@;
    let ghost token_text = xcsrf.deep_view();
    let mut r: Vec<(String, String)> = Vec::new();
    r.push((String::from_str("cookie"), cookie));
    r.push((String::from_str("user-agent"), String::from_str("Roblox/WinInet")));
    match xcsrf {
        Some(t) => r.push((String::from_str("x-csrf-token"), t)),
        None => (),
    }
    if has_body {
        r.push((String::from_str("content-type"), String::from_str("application/json")));
    }
    proof {
        assert(r.deep_view() =~= spec_request_headers(cookie_text, token_text, has_body));
    }
    r
}

/// Plans the currency lookup of one user.
pub fn plan_robux(user_id: u64) -> (p: RequestPlan)
    ensures
        p.method == HttpMethod::Get,
        p.url@ == spec_robux_url(user_id),
        p.body is None,
        !p.attach_xcsrf,
{
    RequestPlan { method: HttpMethod::Get, url: robux_url(user_id), body: None, attach_xcsrf: false }
}

/// The robux count of the validated outcome.
pub fn robux_from_outcome(outcome: RequestOutcome) -> (r: Result<u64, RobloxError>)
    ensures
        (match spec_validate(outcome@) {
            Err(e) => r is Err && r->Err_0@ == e,
            Ok(body) => match currency_of(body) {
                Some(n) => r == Ok::<u64, RobloxError>(n),
                None => r == Err::<u64, RobloxError>(RobloxError::MalformedResponse),
            },
        }),
{
    match validate_request_result(outcome) {
        Err(e) => Err(e),
        Ok(body) => decode_robux_response(body.as_str()),
    }
}

/// Plans one page of resellers of one item.  The cursor must come from a
/// previous resellers page: cursors are opaque and never valid across
/// operations.
pub fn plan_resellers(item_id: u64, limit: Limit, cursor: Option<String>) -> (p: RequestPlan)
    ensures
        p.method == HttpMethod::Get,
        p.url@ == spec_resellers_url(item_id, cursor.deep_view(), limit.spec_value()),
        p.body is None,
        !p.attach_xcsrf,
{
    RequestPlan {
        method: HttpMethod::Get,
        url: resellers_url(item_id, limit, cursor),
        body: None,
        attach_xcsrf: false,
    }
}

/// The page of listings and next-page cursor of the validated outcome.
pub fn resellers_from_outcome(outcome: RequestOutcome) -> (r: Result<
    (Vec<Listing>, Option<String>),
    RobloxError,
>)
    ensures
        (match spec_validate(outcome@) {
            Err(e) => r is Err && r->Err_0@ == e,
            Ok(body) => match page_info_of(body) {
                None => r is Err && r->Err_0 == RobloxError::MalformedResponse,
                Some((n, cursor)) => match r {
                    Ok((listings, next)) => {
                        &&& listings@.len() == n
                        &&& forall|i: usize|
                            i < n ==> #[trigger] listing_at_of(body, i) == Some(
                                listing_model(listings@[i as int]),
                            )
                        &&& next.deep_view() == cursor
                    },
                    Err(e) => {
                        &&& e == RobloxError::MalformedResponse
                        &&& exists|i: usize| i < n && #[trigger] listing_at_of(body, i) is None
                    },
                },
            },
        }),
{
    match validate_request_result(outcome) {
        Err(e) => Err(e),
        Ok(body) => decode_resellers_response(body.as_str()),
    }
}

/// Plans one page of the user's sale transactions.  The cursor must come
/// from a previous sales page: cursors are opaque and never valid across
/// operations.
pub fn plan_user_sales(user_id: u64, limit: Limit, cursor: Option<String>) -> (p: RequestPlan)
    ensures
        p.method == HttpMethod::Get,
        p.url@ == spec_user_sales_url(user_id, cursor.deep_view(), limit.spec_value()),
        p.body is None,
        !p.attach_xcsrf,
{
    RequestPlan {
        method: HttpMethod::Get,
        url: user_sales_url(user_id, limit, cursor),
        body: None,
        attach_xcsrf: false,
    }
}

/// The page of sales and next-page cursor of the validated outcome.
pub fn user_sales_from_outcome(outcome: RequestOutcome) -> (r: Result<
    (Vec<UserSale>, Option<String>),
    RobloxError,
>)
    ensures
        (match spec_validate(outcome@) {
            Err(e) => r is Err && r->Err_0@ == e,
            Ok(body) => match page_info_of(body) {
                None => r is Err && r->Err_0 == RobloxError::MalformedResponse,
                Some((n, cursor)) => match r {
                    Ok((sales, next)) => {
                        &&& sales@.len() == n
                        &&& forall|i: usize|
                            i < n ==> #[trigger] sale_at_of(body, i) == Some(
                                sale_model(sales@[i as int]),
                            )
                        &&& next.deep_view() == cursor
                    },
                    Err(e) => {
                        &&& e == RobloxError::MalformedResponse
                        &&& exists|i: usize| i < n && #[trigger] sale_at_of(body, i) is None
                    },
                },
            },
        }),
{
    match validate_request_result(outcome) {
        Err(e) => Err(e),
        Ok(body) => decode_user_sales_response(body.as_str()),
    }
}

/// Plans putting one copy of one item on sale at the given price.  A
/// state-mutating call: the anti-forgery token is attached and the plan is
/// meant to run under the retry orchestrator.
pub fn plan_put_on_sale(item_id: u64, uaid: u64, price: u64) -> (p: RequestPlan)
    ensures
        p.method == HttpMethod::Patch,
        p.url@ == spec_toggle_sale_url(item_id, uaid),
        p.body matches Some(b) && b@ == spec_put_on_sale_body(price),
        p.attach_xcsrf,
{
    RequestPlan {
        method: HttpMethod::Patch,
        url: toggle_sale_url(item_id, uaid),
        body: Some(put_on_sale_body(price)),
        attach_xcsrf: true,
    }
}

/// Plans taking one copy of one item off sale.  A state-mutating call, as
/// [`plan_put_on_sale`] is.
pub fn plan_take_off_sale(item_id: u64, uaid: u64) -> (p: RequestPlan)
    ensures
        p.method == HttpMethod::Patch,
        p.url@ == spec_toggle_sale_url(item_id, uaid),
        p.body matches Some(b) && b@ == "{}"@,
        p.attach_xcsrf,
{
    RequestPlan {
        method: HttpMethod::Patch,
        url: toggle_sale_url(item_id, uaid),
        body: Some(take_off_sale_body()),
        attach_xcsrf: true,
    }
}

/// The result of a sale toggle: nothing is decoded, a status-200 response is
/// the whole success.
pub fn toggle_sale_from_outcome(outcome: RequestOutcome) -> (r: Result<(), RobloxError>)
    ensures
        (match spec_validate(outcome@) {
            Err(e) => r is Err && r->Err_0@ == e,
            Ok(_) => r == Ok::<(), RobloxError>(()),
        }),
{
    match validate_request_result(outcome) {
        Err(e) => Err(e),
        Ok(_) => Ok(()),
    }
}

/// Plans the purchase of one copy of a tradable limited item.  A
/// state-mutating call, run under the retry orchestrator.
pub fn plan_purchase(product_id: u64, price: u64, seller_id: u64, uaid: u64) -> (p: RequestPlan)
    ensures
        p.method == HttpMethod::Post,
        p.url@ == spec_purchase_url(product_id),
        p.body matches Some(b) && b@ == spec_purchase_body(price, seller_id, uaid),
        p.attach_xcsrf,
{
    RequestPlan {
        method: HttpMethod::Post,
        url: purchase_url(product_id),
        body: Some(purchase_body(price, seller_id, uaid)),
        attach_xcsrf: true,
    }
}

/// The result of a purchase: a validated reply either reports the purchase
/// done or carries a business failure mapped to its purchase error kind.
pub fn purchase_from_outcome(outcome: RequestOutcome) -> (r: Result<(), RobloxError>)
    ensures
        (match spec_validate(outcome@) {
            Err(e) => r is Err && r->Err_0@ == e,
            Ok(body) => match purchase_reply_of(body) {
                None => r == Err::<(), RobloxError>(RobloxError::MalformedResponse),
                Some((purchased, message)) => if purchased {
                    r == Ok::<(), RobloxError>(())
                } else {
                    r is Err && r->Err_0@ == ErrorModel::PurchaseTradableLimitedError(
                        spec_purchase_kind(message),
                    )
                },
            },
        }),
{
    match validate_request_result(outcome) {
        Err(e) => Err(e),
        Ok(body) => decode_purchase_response(body.as_str()),
    }
}

} // verus!
