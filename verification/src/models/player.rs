//! What a player is seen to carry.

use vstd::prelude::*;

verus! {

/// One piece of equipment.
#[derive(Debug, Clone)]
pub struct Item {
    pub item_id: String,
    pub quality: u8,
    pub enchantment: u8,
}

/// The equipment that is visible on a player, slot by slot.
#[derive(Debug, Clone)]
pub struct Equipment {
    pub main_hand: Option<Item>,
    pub off_hand: Option<Item>,
    pub head: Option<Item>,
    pub chest: Option<Item>,
    pub shoes: Option<Item>,
    pub bag: Option<Item>,
    pub cape: Option<Item>,
    pub mount: Option<Item>,
}

} // verus!
