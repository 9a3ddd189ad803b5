//! Ability data. Every ability is identified by an [`AbilityId`]; its display
//! name and the stats it exposes for per-ability rank-ups live in the catalog
//! below. The scenes that bring an ability to life are authored by the game
//! shell; the rules only ever need the data here.

use vstd::prelude::*;

verus! {

/// Every ability in the game.
#[derive(Clone, Copy, PartialEq, Eq, Structural, Debug)]
pub enum AbilityId {
    MagicMissile,
    Firebolt,
    FrostShard,
    Fireball,
    OrbitingBlade,
    IceStorm,
    Firestorm,
    ArcaneStorm,
    Slice,
    Arrow,
}

/// Which per-ability stats an ability exposes for level-up rank-ups. `Damage`
/// is always rankable; the rest depend on what the ability actually carries.
#[derive(Clone, Copy, PartialEq, Eq, Structural, Debug)]
pub struct AbilityStats {
    pub cooldown: bool,
    pub area: bool,
    pub projectile_speed: bool,
}

/// A playable ability as data: its id, display name and rankable stats.
#[derive(Clone, Copy, Debug)]
pub struct AbilityDef {
    pub id: AbilityId,
    pub name: &'static str,
    pub stats: AbilityStats,
}

/// The rankable stats of each ability.
pub open spec fn spec_ability_stats(id: AbilityId) -> AbilityStats {
    match id {
        AbilityId::MagicMissile => AbilityStats { cooldown: true, area: false, projectile_speed: true },
        AbilityId::Firebolt => AbilityStats { cooldown: true, area: false, projectile_speed: true },
        AbilityId::FrostShard => AbilityStats { cooldown: true, area: false, projectile_speed: true },
        AbilityId::Fireball => AbilityStats { cooldown: true, area: true, projectile_speed: true },
        AbilityId::OrbitingBlade => AbilityStats { cooldown: false, area: false, projectile_speed: false },
        AbilityId::IceStorm => AbilityStats { cooldown: true, area: true, projectile_speed: false },
        AbilityId::Firestorm => AbilityStats { cooldown: true, area: true, projectile_speed: false },
        AbilityId::ArcaneStorm => AbilityStats { cooldown: true, area: false, projectile_speed: true },
        AbilityId::Slice => AbilityStats { cooldown: true, area: true, projectile_speed: false },
        AbilityId::Arrow => AbilityStats { cooldown: true, area: false, projectile_speed: true },
    }
}

/// The base attributes an ability's own modifier set carries, in hundredths:
/// its cooldown in seconds, its projectiles' speed and its area radius, each
/// where the ability has one. A projectile ability carries a speed, an
/// exploding or zone or sweeping one a radius; the orbiting blade carries none.
#[derive(Clone, Copy, PartialEq, Eq, Structural, Debug)]
pub struct AbilityBase {
    pub cooldown: Option<u32>,
    pub projectile_speed: Option<u32>,
    pub area: Option<u32>,
}

/// The base attributes of each ability.
pub open spec fn spec_ability_base(id: AbilityId) -> AbilityBase {
    match id {
        AbilityId::MagicMissile => AbilityBase { cooldown: Some(80), projectile_speed: Some(1800), area: None },
        AbilityId::Firebolt => AbilityBase { cooldown: Some(110), projectile_speed: Some(1300), area: None },
        AbilityId::FrostShard => AbilityBase { cooldown: Some(50), projectile_speed: Some(2200), area: None },
        AbilityId::Fireball => AbilityBase { cooldown: Some(130), projectile_speed: Some(1200), area: Some(300) },
        AbilityId::OrbitingBlade => AbilityBase { cooldown: None, projectile_speed: None, area: None },
        AbilityId::IceStorm => AbilityBase { cooldown: Some(400), projectile_speed: None, area: Some(320) },
        AbilityId::Firestorm => AbilityBase { cooldown: Some(600), projectile_speed: None, area: Some(180) },
        AbilityId::ArcaneStorm => AbilityBase { cooldown: Some(500), projectile_speed: Some(1600), area: None },
        AbilityId::Slice => AbilityBase { cooldown: Some(70), projectile_speed: None, area: Some(260) },
        AbilityId::Arrow => AbilityBase { cooldown: Some(90), projectile_speed: Some(2400), area: None },
    }
}

/// A rank-up only ever targets a base attribute the ability carries, and every
/// base it carries can be ranked: `Cooldown` exactly when it has a cooldown,
/// `Area` exactly when it has an area radius, `Speed` exactly when it fires
/// projectiles.
pub proof fn law_rankable_stats_are_carried(id: AbilityId)
    ensures
        spec_ability_stats(id).cooldown <==> spec_ability_base(id).cooldown is Some,
        spec_ability_stats(id).area <==> spec_ability_base(id).area is Some,
        spec_ability_stats(id).projectile_speed <==> spec_ability_base(id).projectile_speed is Some,
{
}

/// The display name of each ability.
pub open spec fn spec_ability_name(id: AbilityId) -> Seq<char> {
    match id {
        AbilityId::MagicMissile => "Magic Missile"@,
        AbilityId::Firebolt => "Firebolt"@,
        AbilityId::FrostShard => "Frost Shard"@,
        AbilityId::Fireball => "Fireball"@,
        AbilityId::OrbitingBlade => "Orbiting Blade"@,
        AbilityId::IceStorm => "Ice Storm"@,
        AbilityId::Firestorm => "Firestorm"@,
        AbilityId::ArcaneStorm => "Arcane Storm"@,
        AbilityId::Slice => "Slice"@,
        AbilityId::Arrow => "Arrow"@,
    }
}

/// The abilities in menu/draft order.
pub open spec fn spec_all_abilities() -> Seq<AbilityId> {
    seq![
        AbilityId::MagicMissile,
        AbilityId::Firebolt,
        AbilityId::FrostShard,
        AbilityId::Fireball,
        AbilityId::OrbitingBlade,
        AbilityId::IceStorm,
        AbilityId::Firestorm,
    ]
}

impl AbilityId {
    /// The catalog entry for this ability.
    pub fn def(self) -> (d: AbilityDef)
        ensures
            d.id == self,
            d.name@ == spec_ability_name(self),
            d.stats == spec_ability_stats(self),
    {
        let (name, cooldown, area, projectile_speed): (&'static str, bool, bool, bool) = match self {
            AbilityId::MagicMissile => ("Magic Missile", true, false, true),
            AbilityId::Firebolt => ("Firebolt", true, false, true),
            AbilityId::FrostShard => ("Frost Shard", true, false, true),
            AbilityId::Fireball => ("Fireball", true, true, true),
            AbilityId::OrbitingBlade => ("Orbiting Blade", false, false, false),
            AbilityId::IceStorm => ("Ice Storm", true, true, false),
            AbilityId::Firestorm => ("Firestorm", true, true, false),
            AbilityId::ArcaneStorm => ("Arcane Storm", true, false, true),
            AbilityId::Slice => ("Slice", true, true, false),
            AbilityId::Arrow => ("Arrow", true, false, true),
        };
        AbilityDef { id: self, name, stats: AbilityStats { cooldown, area, projectile_speed } }
    }
}

impl AbilityDef {
    /// Identity by id: each ability has exactly one catalog entry.
    pub fn same(&self, other: &AbilityDef) -> (r: bool)
        ensures
            r == (self.id == other.id),
    {
        self.id == other.id
    }
}

/// Every ability offered by the menus and the draft, in order.
pub fn all() -> (v: Vec<AbilityId>)
    ensures
        v@ == spec_all_abilities(),
{
    let v = vec![
        AbilityId::MagicMissile,
        AbilityId::Firebolt,
        AbilityId::FrostShard,
        AbilityId::Fireball,
        AbilityId::OrbitingBlade,
        AbilityId::IceStorm,
        AbilityId::Firestorm,
    ];
    assert(v@ =~= spec_all_abilities());
    v
}

} // verus!
