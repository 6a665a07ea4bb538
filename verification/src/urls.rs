//! Request targets and JSON bodies, built as exact character sequences.
//!
//! Every builder's contract pins the full text of what is sent, so a caller
//! can see the path template, the query parameters, and the body fields
//! without reading the code.

use vstd::prelude::*;

use crate::digits::{spec_u64_digits, u64_to_string};
use crate::types::Limit;

verus! {

/// The cursor text placed in a query string: the caller's cursor, or empty
/// for the first page.
pub open spec fn spec_cursor_text(cursor: Option<Seq<char>>) -> Seq<char> {
    match cursor {
        Some(c) => c,
        None => Seq::<char>::empty(),
    }
}

/// The currency endpoint for one user.
pub open spec fn spec_robux_url(user_id: u64) -> Seq<char> {
    "https://economy.roblox.com/v1/users/"@ + spec_u64_digits(user_id as nat) + "/currency"@
}

/// Builds the currency endpoint URL.
pub fn robux_url(user_id: u64) -> (s: String)
    ensures
        s@ == spec_robux_url(user_id),
{
    let mut s = String::from_str("https://economy.roblox.com/v1/users/");
    let id = u64_to_string(user_id);
    s.append(id.as_str());
    s.append("/currency");
    proof {
        assert(s@ =~= spec_robux_url(user_id));
    }
    s
}

/// The resellers endpoint for one item, with cursor and page size.
pub open spec fn spec_resellers_url(item_id: u64, cursor: Option<Seq<char>>, limit: u64) -> Seq<
    char,
> {
    "https://economy.roblox.com/v1/assets/"@ + spec_u64_digits(item_id as nat)
        + "/resellers?cursor="@ + spec_cursor_text(cursor) + "&limit="@ + spec_u64_digits(
        limit as nat,
    )
}

/// Builds the resellers endpoint URL.
pub fn resellers_url(item_id: u64, limit: Limit, cursor: Option<String>) -> (s: String)
    ensures
        s@ == spec_resellers_url(item_id, cursor.deep_view(), limit.spec_value()),
{
    let mut s = String::from_str("https://economy.roblox.com/v1/assets/");
    let id = u64_to_string(item_id);
    s.append(id.as_str());
    s.append("/resellers?cursor=");
    match &cursor {
        Some(c) => s.append(c.as_str()),
        None => (),
    }
    s.append("&limit=");
    let lim = u64_to_string(limit.to_u64());
    s.append(lim.as_str());
    proof {
        assert(s@ =~= spec_resellers_url(item_id, cursor.deep_view(), limit.spec_value()));
    }
    s
}

/// The sale-transactions endpoint for one user, with cursor and page size.
pub open spec fn spec_user_sales_url(user_id: u64, cursor: Option<Seq<char>>, limit: u64) -> Seq<
    char,
> {
    "https://economy.roblox.com/v2/users/"@ + spec_u64_digits(user_id as nat)
        + "/transactions?cursor="@ + spec_cursor_text(cursor) + "&limit="@ + spec_u64_digits(
        limit as nat,
    ) + "&transactionType=Sale"@
}

/// Builds the sale-transactions endpoint URL.
pub fn user_sales_url(user_id: u64, limit: Limit, cursor: Option<String>) -> (s: String)
    ensures
        s@ == spec_user_sales_url(user_id, cursor.deep_view(), limit.spec_value()),
{
    let mut s = String::from_str("https://economy.roblox.com/v2/users/");
    let id = u64_to_string(user_id);
    s.append(id.as_str());
    s.append("/transactions?cursor=");
    match &cursor {
        Some(c) => s.append(c.as_str()),
        None => (),
    }
    s.append("&limit=");
    let lim = u64_to_string(limit.to_u64());
    s.append(lim.as_str());
    s.append("&transactionType=Sale");
    proof {
        assert(s@ =~= spec_user_sales_url(user_id, cursor.deep_view(), limit.spec_value()));
    }
    s
}

/// The resellable-copies endpoint for one copy of one item, used both to put
/// it on sale and to take it off sale.
pub open spec fn spec_toggle_sale_url(item_id: u64, uaid: u64) -> Seq<char> {
    "https://economy.roblox.com/v1/assets/"@ + spec_u64_digits(item_id as nat)
        + "/resellable-copies/"@ + spec_u64_digits(uaid as nat)
}

/// Builds the resellable-copies endpoint URL.
pub fn toggle_sale_url(item_id: u64, uaid: u64) -> (s: String)
    ensures
        s@ == spec_toggle_sale_url(item_id, uaid),
{
    let mut s = String::from_str("https://economy.roblox.com/v1/assets/");
    let id = u64_to_string(item_id);
    s.append(id.as_str());
    s.append("/resellable-copies/");
    let copy = u64_to_string(uaid);
    s.append(copy.as_str());
    proof {
        assert(s@ =~= spec_toggle_sale_url(item_id, uaid));
    }
    s
}

/// The purchase endpoint for one product.
pub open spec fn spec_purchase_url(product_id: u64) -> Seq<char> {
    "https://economy.roblox.com/v1/purchases/products/"@ + spec_u64_digits(product_id as nat)
}

/// Builds the purchase endpoint URL.
pub fn purchase_url(product_id: u64) -> (s: String)
    ensures
        s@ == spec_purchase_url(product_id),
{
    let mut s = String::from_str("https://economy.roblox.com/v1/purchases/products/");
    let id = u64_to_string(product_id);
    s.append(id.as_str());
    s
}

/// The JSON body that puts a copy on sale at the given price.
pub open spec fn spec_put_on_sale_body(price: u64) -> Seq<char> {
    "{\"price\":"@ + spec_u64_digits(price as nat) + "}"@
}

/// Builds the put-on-sale JSON body.
pub fn put_on_sale_body(price: u64) -> (s: String)
    ensures
        s@ == spec_put_on_sale_body(price),
{
    let mut s = String::from_str("{\"price\":");
    let p = u64_to_string(price);
    s.append(p.as_str());
    s.append("}");
    proof {
        assert(s@ =~= spec_put_on_sale_body(price));
    }
    s
}

/// The JSON body that takes a copy off sale: an empty object.
pub fn take_off_sale_body() -> (s: String)
    ensures
        s@ == "{}"@,
{
    String::from_str("{}")
}

/// The JSON body of a purchase: the expected currency kind (always robux),
/// the expected price, the expected seller, and the copy to buy.  The remote
/// service rejects the purchase when any expectation no longer holds.
pub open spec fn spec_purchase_body(price: u64, seller_id: u64, uaid: u64) -> Seq<char> {
    "{\"expectedCurrency\":1,\"expectedPrice\":"@ + spec_u64_digits(price as nat)
        + ",\"expectedSellerId\":"@ + spec_u64_digits(seller_id as nat) + ",\"userAssetId\":"@
        + spec_u64_digits(uaid as nat) + "}"@
}

/// Builds the purchase JSON body.
pub fn purchase_body(price: u64, seller_id: u64, uaid: u64) -> (s: String)
    ensures
        s@ == spec_purchase_body(price, seller_id, uaid),
{
    let mut s = String::from_str("{\"expectedCurrency\":1,\"expectedPrice\":");
    let p = u64_to_string(price);
    s.append(p.as_str());
    s.append(",\"expectedSellerId\":");
    let sid = u64_to_string(seller_id);
    s.append(sid.as_str());
    s.append(",\"userAssetId\":");
    let copy = u64_to_string(uaid);
    s.append(copy.as_str());
    s.append("}");
    proof {
        assert(s@ =~= spec_purchase_body(price, seller_id, uaid));
    }
    s
}

} // verus!
