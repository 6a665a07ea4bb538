//! Domain value types of the economy client.

use vstd::prelude::*;

verus! {

/// Page size accepted by the paginated endpoints of the remote service.
#[derive(Clone, Copy, Debug, PartialEq, Eq, Structural)]
pub enum Limit {
    Ten,
    TwentyFive,
    Fifty,
    Hundred,
}

impl Limit {
    /// The numeric page size this variant stands for.
    pub open spec fn spec_value(self) -> u64 {
        match self {
            Limit::Ten => 10,
            Limit::TwentyFive => 25,
            Limit::Fifty => 50,
            Limit::Hundred => 100,
        }
    }

    /// Numeric page size sent to the remote service in the query string.
    pub fn to_u64(self) -> (r: u64)
        ensures
            r == self.spec_value(),
    {
        match self {
            Limit::Ten => 10,
            Limit::TwentyFive => 25,
            Limit::Fifty => 50,
            Limit::Hundred => 100,
        }
    }
}

/// A reseller of a resale listing.
#[derive(Clone, Debug, PartialEq, Eq, PartialOrd, Ord, Hash, Default)]
pub struct Reseller {
    pub user_id: u64,
    pub name: String,
}

/// A resale listing of a limited item.
#[derive(Clone, Debug, PartialEq, Eq, PartialOrd, Ord, Hash, Default)]
pub struct Listing {
    /// The unique asset id of the copy on sale.
    pub uaid: u64,
    /// The price of the listing.
    pub price: u64,
    /// The reseller offering the copy.
    pub reseller: Reseller,
    /// The serial number of the copy, where the item kind has one.
    pub serial_number: Option<u64>,
}

/// A sale of an asset from the account's transaction history.
#[derive(Clone, Debug, PartialEq, Eq, PartialOrd, Ord, Hash, Default)]
pub struct UserSale {
    /// Identifier of the sale record.
    pub sale_id: u64,
    /// Whether the sale is still pending.
    pub is_pending: bool,
    /// The id of the user that purchased the asset.
    pub user_id: u64,
    /// The display name of the user that purchased the asset.
    pub user_display_name: String,
    /// The robux the account received after tax.
    pub robux_received: u64,
    /// The asset id of the item that was sold.
    pub asset_id: u64,
    /// The name of the asset that was sold.
    pub asset_name: String,
}

} // verus!
