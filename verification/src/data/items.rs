//! Items: the equippable unit an inventory slot holds.
//!
//! An [`ItemDef`] bundles a weapon type (sword / bow / staff) and the ability it
//! grants. Items are identified by [`ItemId`]; two definitions are the same item
//! exactly when their ids agree.

use vstd::prelude::*;

use crate::data::abilities::{spec_ability_stats, AbilityId, AbilityStats};

verus! {

/// The broad category of a weapon.
#[derive(Clone, Copy, PartialEq, Eq, Structural, Debug)]
pub enum WeaponType {
    Sword,
    Bow,
    Staff,
}

/// Display label of a weapon type.
pub open spec fn spec_weapon_label(w: WeaponType) -> Seq<char> {
    match w {
        WeaponType::Sword => "Sword"@,
        WeaponType::Bow => "Bow"@,
        WeaponType::Staff => "Staff"@,
    }
}

impl WeaponType {
    pub fn label(self) -> (s: &'static str)
        ensures
            s@ == spec_weapon_label(self),
    {
        match self {
            WeaponType::Sword => "Sword",
            WeaponType::Bow => "Bow",
            WeaponType::Staff => "Staff",
        }
    }
}

/// Every item in the game.
#[derive(Clone, Copy, PartialEq, Eq, Structural, Debug)]
pub enum ItemId {
    ApprenticeStaff,
    EmberwoodStaff,
    FrostpineStaff,
    PyreStaff,
    WhirlingBlade,
    GlacierStaff,
    CinderStaff,
    RunedStaff,
    IronSword,
    HuntingBow,
}

/// A piece of equipment as data: its id, display name, weapon type and the
/// ability it grants.
#[derive(Clone, Copy, Debug)]
pub struct ItemDef {
    pub id: ItemId,
    pub name: &'static str,
    pub weapon: WeaponType,
    pub ability: AbilityId,
}

/// The ability each item grants.
pub open spec fn spec_item_ability(id: ItemId) -> AbilityId {
    match id {
        ItemId::ApprenticeStaff => AbilityId::MagicMissile,
        ItemId::EmberwoodStaff => AbilityId::Firebolt,
        ItemId::FrostpineStaff => AbilityId::FrostShard,
        ItemId::PyreStaff => AbilityId::Fireball,
        ItemId::WhirlingBlade => AbilityId::OrbitingBlade,
        ItemId::GlacierStaff => AbilityId::IceStorm,
        ItemId::CinderStaff => AbilityId::Firestorm,
        ItemId::RunedStaff => AbilityId::ArcaneStorm,
        ItemId::IronSword => AbilityId::Slice,
        ItemId::HuntingBow => AbilityId::Arrow,
    }
}

/// The weapon type of each item.
pub open spec fn spec_item_weapon(id: ItemId) -> WeaponType {
    match id {
        ItemId::WhirlingBlade | ItemId::IronSword => WeaponType::Sword,
        ItemId::HuntingBow => WeaponType::Bow,
        _ => WeaponType::Staff,
    }
}

/// The display name of each item.
pub open spec fn spec_item_name(id: ItemId) -> Seq<char> {
    match id {
        ItemId::ApprenticeStaff => "Apprentice Staff"@,
        ItemId::EmberwoodStaff => "Emberwood Staff"@,
        ItemId::FrostpineStaff => "Frostpine Staff"@,
        ItemId::PyreStaff => "Pyre Staff"@,
        ItemId::WhirlingBlade => "Whirling Blade"@,
        ItemId::GlacierStaff => "Glacier Staff"@,
        ItemId::CinderStaff => "Cinder Staff"@,
        ItemId::RunedStaff => "Runed Staff"@,
        ItemId::IronSword => "Iron Sword"@,
        ItemId::HuntingBow => "Hunting Bow"@,
    }
}

/// Every item, in menu/draft order.
pub open spec fn spec_all_items() -> Seq<ItemId> {
    seq![
        ItemId::ApprenticeStaff,
        ItemId::EmberwoodStaff,
        ItemId::FrostpineStaff,
        ItemId::PyreStaff,
        ItemId::WhirlingBlade,
        ItemId::GlacierStaff,
        ItemId::CinderStaff,
        ItemId::RunedStaff,
        ItemId::IronSword,
        ItemId::HuntingBow,
    ]
}

impl ItemId {
    /// The catalog entry for this item.
    pub fn def(self) -> (d: ItemDef)
        ensures
            d.id == self,
            d.name@ == spec_item_name(self),
            d.weapon == spec_item_weapon(self),
            d.ability == spec_item_ability(self),
    {
        let (name, weapon, ability): (&'static str, WeaponType, AbilityId) = match self {
            ItemId::ApprenticeStaff => ("Apprentice Staff", WeaponType::Staff, AbilityId::MagicMissile),
            ItemId::EmberwoodStaff => ("Emberwood Staff", WeaponType::Staff, AbilityId::Firebolt),
            ItemId::FrostpineStaff => ("Frostpine Staff", WeaponType::Staff, AbilityId::FrostShard),
            ItemId::PyreStaff => ("Pyre Staff", WeaponType::Staff, AbilityId::Fireball),
            ItemId::WhirlingBlade => ("Whirling Blade", WeaponType::Sword, AbilityId::OrbitingBlade),
            ItemId::GlacierStaff => ("Glacier Staff", WeaponType::Staff, AbilityId::IceStorm),
            ItemId::CinderStaff => ("Cinder Staff", WeaponType::Staff, AbilityId::Firestorm),
            ItemId::RunedStaff => ("Runed Staff", WeaponType::Staff, AbilityId::ArcaneStorm),
            ItemId::IronSword => ("Iron Sword", WeaponType::Sword, AbilityId::Slice),
            ItemId::HuntingBow => ("Hunting Bow", WeaponType::Bow, AbilityId::Arrow),
        };
        ItemDef { id: self, name, weapon, ability }
    }
}

impl ItemDef {
    /// Identity by id: each item has exactly one catalog entry.
    pub fn same(&self, other: &ItemDef) -> (r: bool)
        ensures
            r == (self.id == other.id),
    {
        self.id == other.id
    }

    /// The rankable stats of the granted ability (the draft offers these).
    pub fn stats(&self) -> (s: AbilityStats)
        ensures
            s == spec_ability_stats(self.ability),
    {
        self.ability.def().stats
    }
}

/// Every item in the game, in menu/draft order.
pub fn all() -> (v: Vec<ItemId>)
    ensures
        v@ == spec_all_items(),
{
    let v = vec![
        ItemId::ApprenticeStaff,
        ItemId::EmberwoodStaff,
        ItemId::FrostpineStaff,
        ItemId::PyreStaff,
        ItemId::WhirlingBlade,
        ItemId::GlacierStaff,
        ItemId::CinderStaff,
        ItemId::RunedStaff,
        ItemId::IronSword,
        ItemId::HuntingBow,
    ];
    assert(v@ =~= spec_all_items());
    v
}

} // verus!
