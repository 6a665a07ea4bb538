//! Laws of the classifier, stated and proved over the spec functions that
//! the executable functions' contracts use.

use vstd::prelude::*;

use crate::classify::{spec_challenge_message, spec_classify_403, spec_token_refresh};
use crate::economy::spec_purchase_kind;
use crate::error::{ErrorModel, PurchaseErrorModel};
use crate::raw::{base64_decoded, challenge_id_of, error_summary_of};

verus! {

/// A 403 whose body parses with a first error of the sentinel code 0 is a
/// token refresh, whatever the message text: the fresh header token when one
/// is present, else the token-missing error.
pub proof fn lemma_code_zero_is_token_refresh(
    body: Seq<char>,
    message: Seq<char>,
    xcsrf: Option<Seq<char>>,
    metadata: Option<Seq<char>>,
)
    requires
        error_summary_of(body) == Some(Some((0u16, message))),
    ensures
        spec_classify_403(body, xcsrf, metadata) == spec_token_refresh(xcsrf),
        xcsrf matches Some(fresh) ==> spec_classify_403(body, xcsrf, metadata)
            == ErrorModel::InvalidXcsrf(fresh),
        xcsrf is None ==> spec_classify_403(body, xcsrf, metadata) == ErrorModel::XcsrfNotReturned,
{
}

/// A 403 carrying a body that does not parse falls back to header-based
/// token-refresh detection, exactly as the sentinel-code path does.
pub proof fn lemma_unparseable_body_is_token_refresh(
    body: Seq<char>,
    xcsrf: Option<Seq<char>>,
    metadata: Option<Seq<char>>,
)
    requires
        error_summary_of(body) is None,
    ensures
        spec_classify_403(body, xcsrf, metadata) == spec_token_refresh(xcsrf),
{
}

/// A challenge-required 403 — the fixed message literal with a non-sentinel
/// code, and a metadata header that decodes as base64 and parses — always
/// yields the challenge id of the decoded metadata, never a token-refresh
/// outcome, whatever the token header holds.
pub proof fn lemma_challenge_required(
    body: Seq<char>,
    code: u16,
    xcsrf: Option<Seq<char>>,
    metadata: Seq<char>,
    decoded: Seq<u8>,
    id: Seq<char>,
)
    requires
        error_summary_of(body) == Some(Some((code, spec_challenge_message()))),
        code != 0,
        base64_decoded(metadata) == Some(decoded),
        challenge_id_of(decoded) == Some(id),
    ensures
        spec_classify_403(body, xcsrf, Some(metadata)) == ErrorModel::ChallengeRequired(id),
        !(spec_classify_403(body, xcsrf, Some(metadata)) is InvalidXcsrf),
        !(spec_classify_403(body, xcsrf, Some(metadata)) is XcsrfNotReturned),
{
}

/// Each known purchase failure message maps to its kind: the table holds
/// literally, with no two rows colliding.
pub proof fn lemma_purchase_message_table()
    ensures
        spec_purchase_kind(
            "You have a pending transaction. Please wait 1 minute and try again."@,
        ) == PurchaseErrorModel::PendingTransaction,
        spec_purchase_kind("You already own this item."@) == PurchaseErrorModel::CannotBuyOwnItem,
        spec_purchase_kind("This item is not for sale."@) == PurchaseErrorModel::ItemNotForSale,
        spec_purchase_kind("You do not have enough Robux to purchase this item."@)
            == PurchaseErrorModel::NotEnoughRobux,
        spec_purchase_kind("This item has changed price. Please try again."@)
            == PurchaseErrorModel::PriceChanged,
{
    reveal_strlit("You have a pending transaction. Please wait 1 minute and try again.");
    reveal_strlit("You already own this item.");
    reveal_strlit("This item is not for sale.");
    reveal_strlit("You do not have enough Robux to purchase this item.");
    reveal_strlit("This item has changed price. Please try again.");
    // All rows but one pair have pairwise distinct lengths.
    assert("You have a pending transaction. Please wait 1 minute and try again."@.len() == 67);
    assert("You already own this item."@.len() == 26);
    assert("This item is not for sale."@.len() == 26);
    assert("You do not have enough Robux to purchase this item."@.len() == 51);
    assert("This item has changed price. Please try again."@.len() == 46);
    // The two rows of equal length differ in their first character.
    assert("You already own this item."@ != "This item is not for sale."@) by {
        assert("You already own this item."@[0] == 'Y');
        assert("This item is not for sale."@[0] == 'T');
    }
}

} // verus!
