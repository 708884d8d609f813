//! The catalog's description of an item, as far as a purchase needs it.

use vstd::prelude::*;

verus! {

/// Who can create, sell or buy an item: a single account or a group.
#[derive(Clone, Copy, Debug, PartialEq, Eq, Structural)]
pub enum CreatorTypes {
    User,
    Group,
}

/// The one field of a catalog entry that leads to the collectible itself.
#[derive(Debug)]
pub struct CatalogItem {
    pub collectible_item_id: String,
}

/// The question put to the marketplace to have collectibles described.
#[derive(Debug)]
pub struct MarketplaceItemDetailsPayload {
    pub item_ids: Vec<String>,
}

impl MarketplaceItemDetailsPayload {
    /// The question about a single collectible.
    pub fn for_item(collectible_item_id: String) -> (payload: MarketplaceItemDetailsPayload)
        ensures
            payload.item_ids@ == seq![collectible_item_id],
    {
        let mut item_ids: Vec<String> = Vec::new();
        item_ids.push(collectible_item_id);
        MarketplaceItemDetailsPayload { item_ids }
    }
}

/// A collectible as the marketplace describes it.
#[derive(Debug)]
pub struct Item {
    pub collectible_item_id: String,
    pub collectible_product_id: String,
    pub creator_type: CreatorTypes,
    pub item_target_id: u64,
    pub creator_id: u64,
    pub price: u64,
    pub quantity_limit_per_user: u64,
}

} // verus!
