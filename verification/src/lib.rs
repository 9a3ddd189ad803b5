//! The rules of a survivors-like arena game as a verified library: the player's
//! inventory and its equip reconciliation, the level-up draft, experience,
//! metaprogression purchases, team filtering and the drop table.

pub mod data;
pub mod dice;
pub mod layers;
pub mod states;
pub mod ability;
pub mod inventory;
pub mod progression;
pub mod meta;
pub mod pickups;
pub mod enemy;
pub mod menu;
pub mod text;
pub mod damage;
pub mod player;
