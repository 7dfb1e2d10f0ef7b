//! Items as the market lists them.

use crate::utils::clock::now_millis;
use vstd::prelude::*;

verus! {

/// One item on a market.
#[derive(Debug, Clone)]
pub struct MarketItem {
    /// The item's identifier.
    pub item_id: String,
    /// The item's name, where it is known.
    pub name: Option<String>,
    /// The item's quality.
    pub quality: u8,
    /// The item's level of enchantment.
    pub enchantment: u8,
    /// The price asked, where there is an offer.
    pub sell_price: Option<u64>,
    /// The price offered, where there is a request.
    pub buy_price: Option<u64>,
    /// The market's location.
    pub location: String,
    /// When the item was seen, in milliseconds since the Unix epoch.
    pub timestamp: u64,
}

impl MarketItem {
    /// An item seen now, without a name and without prices.
    pub fn new(item_id: String, quality: u8, enchantment: u8, location: String) -> (item: Self)
        ensures
            item.item_id == item_id,
            item.name is None,
            item.quality == quality,
            item.enchantment == enchantment,
            item.sell_price is None,
            item.buy_price is None,
            item.location == location,
    {
        Self::seen_at(item_id, quality, enchantment, location, now_millis())
    }

    /// An item seen at `timestamp`, without a name and without prices.
    pub fn seen_at(
        item_id: String,
        quality: u8,
        enchantment: u8,
        location: String,
        timestamp: u64,
    ) -> (item: Self)
        ensures
            item.item_id == item_id,
            item.name is None,
            item.quality == quality,
            item.enchantment == enchantment,
            item.sell_price is None,
            item.buy_price is None,
            item.location == location,
            item.timestamp == timestamp,
    {
        MarketItem {
            item_id,
            name: None,
            quality,
            enchantment,
            sell_price: None,
            buy_price: None,
            location,
            timestamp,
        }
    }
}

} // verus!
