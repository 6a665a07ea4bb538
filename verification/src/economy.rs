//! Decoding of the economy endpoints' success bodies into domain values,
//! and the purchase flow's second-level classification.

use vstd::prelude::*;

use crate::error::{ErrorModel, PurchaseErrorModel, PurchaseTradableLimitedError, RobloxError};
use crate::raw::{
    currency_of, listing_at_of, listing_model, page_info_of, parse_currency, parse_listing_at,
    parse_page_info, parse_purchase_reply, parse_sale_at, purchase_reply_of, sale_at_of,
    sale_model,
};
use crate::types::{Listing, UserSale};

verus! {

/// Decodes a currency body into the robux count.
pub fn decode_robux_response(body: &str) -> (r: Result<u64, RobloxError>)
    ensures
        (match currency_of(body@) {
            Some(n) => r == Ok::<u64, RobloxError>(n),
            None => r == Err::<u64, RobloxError>(RobloxError::MalformedResponse),
        }),
{
    match parse_currency(body) {
        Some(n) => Ok(n),
        None => Err(RobloxError::MalformedResponse),
    }
}

/// Decodes a resellers body into the page of listings and the cursor of the
/// next page.  `None` as the returned cursor is the sole pagination
/// termination signal.  The body is malformed when its page frame does not
/// parse or any entry of the page does not.
pub fn decode_resellers_response(body: &str) -> (r: Result<
    (Vec<Listing>, Option<String>),
    RobloxError,
>)
    ensures
        (match page_info_of(body@) {
            None => r == Err::<(Vec<Listing>, Option<String>), RobloxError>(
                RobloxError::MalformedResponse,
            ),
            Some((n, cursor)) => match r {
                Ok((listings, next)) => {
                    &&& listings@.len() == n
                    &&& forall|i: usize|
                        i < n ==> #[trigger] listing_at_of(body@, i) == Some(
                            listing_model(listings@[i as int]),
                        )
                    &&& next.deep_view() == cursor
                },
                Err(e) => {
                    &&& e == RobloxError::MalformedResponse
                    &&& exists|i: usize| i < n && #[trigger] listing_at_of(body@, i) is None
                },
            },
        }),
{
    match parse_page_info(body) {
        None => Err(RobloxError::MalformedResponse),
        Some((n, cursor)) => {
            let mut listings: Vec<Listing> = Vec::new();
            let mut i: usize = 0;
            while i < n
                invariant
                    page_info_of(body@) == Some((n, cursor.deep_view())),
                    i <= n,
                    listings@.len() == i,
                    forall|j: usize|
                        j < i ==> #[trigger] listing_at_of(body@, j) == Some(
                            listing_model(listings@[j as int]),
                        ),
                decreases n - i,
            {
                match parse_listing_at(body, i) {
                    Some(l) => {
                        listings.push(l);
                        i = i + 1;
                    },
                    None => {
                        return Err(RobloxError::MalformedResponse);
                    },
                }
            }
            Ok((listings, cursor))
        },
    }
}

/// Decodes a sale-transactions body into the page of sales and the cursor of
/// the next page, under the same rules as the resellers page.
pub fn decode_user_sales_response(body: &str) -> (r: Result<
    (Vec<UserSale>, Option<String>),
    RobloxError,
>)
    ensures
        (match page_info_of(body@) {
            None => r == Err::<(Vec<UserSale>, Option<String>), RobloxError>(
                RobloxError::MalformedResponse,
            ),
            Some((n, cursor)) => match r {
                Ok((sales, next)) => {
                    &&& sales@.len() == n
                    &&& forall|i: usize|
                        i < n ==> #[trigger] sale_at_of(body@, i) == Some(
                            sale_model(sales@[i as int]),
                        )
                    &&& next.deep_view() == cursor
                },
                Err(e) => {
                    &&& e == RobloxError::MalformedResponse
                    &&& exists|i: usize| i < n && #[trigger] sale_at_of(body@, i) is None
                },
            },
        }),
{
    match parse_page_info(body) {
        None => Err(RobloxError::MalformedResponse),
        Some((n, cursor)) => {
            let mut sales: Vec<UserSale> = Vec::new();
            let mut i: usize = 0;
            while i < n
                invariant
                    page_info_of(body@) == Some((n, cursor.deep_view())),
                    i <= n,
                    sales@.len() == i,
                    forall|j: usize|
                        j < i ==> #[trigger] sale_at_of(body@, j) == Some(
                            sale_model(sales@[j as int]),
                        ),
                decreases n - i,
            {
                match parse_sale_at(body, i) {
                    Some(s) => {
                        sales.push(s);
                        i = i + 1;
                    },
                    None => {
                        return Err(RobloxError::MalformedResponse);
                    },
                }
            }
            Ok((sales, cursor))
        },
    }
}

/// The purchase error kind each remote message stands for.
///
/// Each known phrase maps to its kind; any other text, the empty string
/// included, maps to the unknown kind carrying the original text.
pub open spec fn spec_purchase_kind(message: Seq<char>) -> PurchaseErrorModel {
    if message == "You have a pending transaction. Please wait 1 minute and try again."@ {
        PurchaseErrorModel::PendingTransaction
    } else if message == "You already own this item."@ {
        PurchaseErrorModel::CannotBuyOwnItem
    } else if message == "This item is not for sale."@ {
        PurchaseErrorModel::ItemNotForSale
    } else if message == "You do not have enough Robux to purchase this item."@ {
        PurchaseErrorModel::NotEnoughRobux
    } else if message == "This item has changed price. Please try again."@ {
        PurchaseErrorModel::PriceChanged
    } else {
        PurchaseErrorModel::UnknownRobloxErrorMsg(message)
    }
}

/// Maps a purchase failure message to its error kind.
pub fn classify_purchase_message(message: String) -> (k: PurchaseTradableLimitedError)
    ensures
        k@ == spec_purchase_kind(message@),
{
    if message == String::from_str(
        "You have a pending transaction. Please wait 1 minute and try again.",
    ) {
        PurchaseTradableLimitedError::PendingTransaction
    } else if message == String::from_str("You already own this item.") {
        PurchaseTradableLimitedError::CannotBuyOwnItem
    } else if message == String::from_str("This item is not for sale.") {
        PurchaseTradableLimitedError::ItemNotForSale
    } else if message == String::from_str("You do not have enough Robux to purchase this item.") {
        PurchaseTradableLimitedError::NotEnoughRobux
    } else if message == String::from_str("This item has changed price. Please try again.") {
        PurchaseTradableLimitedError::PriceChanged
    } else {
        PurchaseTradableLimitedError::UnknownRobloxErrorMsg(message)
    }
}

/// Decodes a purchase reply.  A reply that does not parse is malformed; a
/// parsed reply either reports the purchase done or carries a business
/// failure whose message is mapped to its kind.
pub fn decode_purchase_response(body: &str) -> (r: Result<(), RobloxError>)
    ensures
        (match purchase_reply_of(body@) {
            None => r == Err::<(), RobloxError>(RobloxError::MalformedResponse),
            Some((purchased, message)) => if purchased {
                r == Ok::<(), RobloxError>(())
            } else {
                r is Err && r->Err_0@ == ErrorModel::PurchaseTradableLimitedError(
                    spec_purchase_kind(message),
                )
            },
        }),
{
    match parse_purchase_reply(body) {
        None => Err(RobloxError::MalformedResponse),
        Some((purchased, message)) => {
            if purchased {
                Ok(())
            } else {
                Err(RobloxError::PurchaseTradableLimitedError(classify_purchase_message(message)))
            }
        },
    }
}

} // verus!
