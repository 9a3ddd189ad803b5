//! Playable characters as data: a name, a blurb, the starter item that fills
//! the first equipment slot, and which stat block the character spawns with.
//! One test character per spell ability is selectable, plus the two classic
//! characters, Sentinel and Arcanist.

use vstd::prelude::*;

use crate::data::abilities::AbilityId;
use crate::data::items::ItemId;

verus! {

/// Which starting stat block a character uses.
#[derive(Clone, Copy, PartialEq, Eq, Structural, Debug)]
pub enum StatProfile {
    /// The generous, neutral block shared by the per-ability test characters.
    Test,
    /// Tanky and slow; bonus damage proportional to max health.
    Sentinel,
    /// Fragile and fast; two extra projectiles per volley.
    Arcanist,
}

/// A playable character as data.
#[derive(Clone, Copy, Debug)]
pub struct Character {
    pub name: &'static str,
    pub blurb: &'static str,
    pub starter: ItemId,
    pub stats: StatProfile,
}

/// The starter item of each selectable character, in menu order.
pub open spec fn spec_roster_starters() -> Seq<ItemId> {
    seq![
        ItemId::ApprenticeStaff,
        ItemId::EmberwoodStaff,
        ItemId::FrostpineStaff,
        ItemId::PyreStaff,
        ItemId::WhirlingBlade,
        ItemId::GlacierStaff,
        ItemId::CinderStaff,
        ItemId::RunedStaff,
    ]
}

/// The name of each selectable character, in menu order.
pub open spec fn spec_roster_names() -> Seq<Seq<char>> {
    seq![
        "Magic Missile"@,
        "Firebolt"@,
        "Frost Shard"@,
        "Fireball"@,
        "Orbiting Blade"@,
        "Ice Storm"@,
        "Firestorm"@,
        "Arcane Storm"@,
    ]
}

/// The blurb of each selectable character, in menu order.
pub open spec fn spec_roster_blurbs() -> Seq<Seq<char>> {
    seq![
        "Homing arcane bolts that fan out and curve in."@,
        "A slow, hard-hitting straight fire bolt \u{2014} lead your target."@,
        "Fast, low-cooldown homing darts that snap to the target."@,
        "A projectile that bursts into an AoE explosion on impact."@,
        "A sustained blade that circles you, slashing what it sweeps."@,
        "A placed zone that pulses cold AoE on the target for a few seconds."@,
        "A meteor shower that rains falling explosions over the target."@,
        "A storm zone that rains homing arcane bolts over the target."@,
    ]
}

/// Number of selectable characters.
pub const ROSTER_LEN: usize = 8;

fn test_character(name: &'static str, blurb: &'static str, starter: ItemId) -> (c: Character)
    ensures
        c.name == name,
        c.blurb == blurb,
        c.starter == starter,
        c.stats == StatProfile::Test,
{
    Character { name, blurb, starter, stats: StatProfile::Test }
}

pub fn magic_missile() -> (c: Character)
    ensures
        c.name@ == spec_roster_names()[0],
        c.blurb@ == spec_roster_blurbs()[0],
        c.starter == spec_roster_starters()[0],
        c.stats == StatProfile::Test,
{
    test_character("Magic Missile", "Homing arcane bolts that fan out and curve in.", ItemId::ApprenticeStaff)
}

pub fn firebolt() -> (c: Character)
    ensures
        c.name@ == spec_roster_names()[1],
        c.blurb@ == spec_roster_blurbs()[1],
        c.starter == spec_roster_starters()[1],
        c.stats == StatProfile::Test,
{
    test_character(
        "Firebolt",
        "A slow, hard-hitting straight fire bolt \u{2014} lead your target.",
        ItemId::EmberwoodStaff,
    )
}

pub fn frost_shard() -> (c: Character)
    ensures
        c.name@ == spec_roster_names()[2],
        c.blurb@ == spec_roster_blurbs()[2],
        c.starter == spec_roster_starters()[2],
        c.stats == StatProfile::Test,
{
    test_character("Frost Shard", "Fast, low-cooldown homing darts that snap to the target.", ItemId::FrostpineStaff)
}

pub fn fireball() -> (c: Character)
    ensures
        c.name@ == spec_roster_names()[3],
        c.blurb@ == spec_roster_blurbs()[3],
        c.starter == spec_roster_starters()[3],
        c.stats == StatProfile::Test,
{
    test_character("Fireball", "A projectile that bursts into an AoE explosion on impact.", ItemId::PyreStaff)
}

pub fn orbiting_blade() -> (c: Character)
    ensures
        c.name@ == spec_roster_names()[4],
        c.blurb@ == spec_roster_blurbs()[4],
        c.starter == spec_roster_starters()[4],
        c.stats == StatProfile::Test,
{
    test_character("Orbiting Blade", "A sustained blade that circles you, slashing what it sweeps.", ItemId::WhirlingBlade)
}

pub fn ice_storm() -> (c: Character)
    ensures
        c.name@ == spec_roster_names()[5],
        c.blurb@ == spec_roster_blurbs()[5],
        c.starter == spec_roster_starters()[5],
        c.stats == StatProfile::Test,
{
    test_character("Ice Storm", "A placed zone that pulses cold AoE on the target for a few seconds.", ItemId::GlacierStaff)
}

pub fn firestorm() -> (c: Character)
    ensures
        c.name@ == spec_roster_names()[6],
        c.blurb@ == spec_roster_blurbs()[6],
        c.starter == spec_roster_starters()[6],
        c.stats == StatProfile::Test,
{
    test_character("Firestorm", "A meteor shower that rains falling explosions over the target.", ItemId::CinderStaff)
}

pub fn arcane_storm() -> (c: Character)
    ensures
        c.name@ == spec_roster_names()[7],
        c.blurb@ == spec_roster_blurbs()[7],
        c.starter == spec_roster_starters()[7],
        c.stats == StatProfile::Test,
{
    test_character("Arcane Storm", "A storm zone that rains homing arcane bolts over the target.", ItemId::RunedStaff)
}

/// Sentinel: tanky and slow; its Firebolts hit harder the more max health it has.
pub fn sentinel() -> (c: Character)
    ensures
        c.name@ == "Sentinel"@,
        c.blurb@ == "Tanky, slow. Firebolts hit harder the more max health you have."@,
        c.starter == ItemId::EmberwoodStaff,
        c.stats == StatProfile::Sentinel,
{
    Character {
        name: "Sentinel",
        blurb: "Tanky, slow. Firebolts hit harder the more max health you have.",
        starter: ItemId::EmberwoodStaff,
        stats: StatProfile::Sentinel,
    }
}

/// Arcanist: fragile and fast; fires a volley of extra homing missiles.
pub fn arcanist() -> (c: Character)
    ensures
        c.name@ == "Arcanist"@,
        c.blurb@ == "Fragile, fast. Fires a volley of extra homing missiles."@,
        c.starter == ItemId::ApprenticeStaff,
        c.stats == StatProfile::Arcanist,
{
    Character {
        name: "Arcanist",
        blurb: "Fragile, fast. Fires a volley of extra homing missiles.",
        starter: ItemId::ApprenticeStaff,
        stats: StatProfile::Arcanist,
    }
}

/// Every selectable character, in menu order: one test character per spell,
/// each starting with the item that grants it.
pub fn all() -> (v: Vec<Character>)
    ensures
        v@.len() == ROSTER_LEN,
        forall|i: int|
            0 <= i < ROSTER_LEN ==> {
                &&& (#[trigger] v@[i]).name@ == spec_roster_names()[i]
                &&& v@[i].blurb@ == spec_roster_blurbs()[i]
                &&& v@[i].starter == spec_roster_starters()[i]
                &&& v@[i].stats == StatProfile::Test
            },
{
    let v = vec![
        magic_missile(),
        firebolt(),
        frost_shard(),
        fireball(),
        orbiting_blade(),
        ice_storm(),
        firestorm(),
        arcane_storm(),
    ];
    v
}

/// The character chosen on the select screen, read when spawning the player.
#[derive(Clone, Copy, Debug)]
pub struct SelectedCharacter(pub Character);

impl Default for SelectedCharacter {
    fn default() -> (s: Self)
        ensures
            s.0.name@ == spec_roster_names()[0],
            s.0.blurb@ == spec_roster_blurbs()[0],
            s.0.starter == spec_roster_starters()[0],
            s.0.stats == StatProfile::Test,
    {
        SelectedCharacter(magic_missile())
    }
}

/// The two classic characters, by id.
#[derive(Clone, Copy, PartialEq, Eq, Structural, Debug)]
pub enum CharacterId {
    Sentinel,
    Arcanist,
}

/// A classic character's definition: base vitality and move speed.
#[derive(Clone, Copy, Debug)]
pub struct CharacterDef {
    pub id: CharacterId,
    pub name: &'static str,
    pub blurb: &'static str,
    pub vitality: u32,
    pub move_speed: u32,
}

impl CharacterId {
    /// The definition of this character.
    pub fn def(self) -> (d: CharacterDef)
        ensures
            d.id == self,
            self == CharacterId::Sentinel ==> d.name@ == "Sentinel"@
                && d.blurb@ == "Tanky, slow. Firebolts hit harder the more max health you have."@ && d.vitality == 12
                && d.move_speed == 4,
            self == CharacterId::Arcanist ==> d.name@ == "Arcanist"@
                && d.blurb@ == "Fragile, fast. Fires a volley of extra homing missiles."@ && d.vitality == 4
                && d.move_speed == 6,
    {
        match self {
            CharacterId::Sentinel => CharacterDef {
                id: CharacterId::Sentinel,
                name: "Sentinel",
                blurb: "Tanky, slow. Firebolts hit harder the more max health you have.",
                vitality: 12,
                move_speed: 4,
            },
            CharacterId::Arcanist => CharacterDef {
                id: CharacterId::Arcanist,
                name: "Arcanist",
                blurb: "Fragile, fast. Fires a volley of extra homing missiles.",
                vitality: 4,
                move_speed: 6,
            },
        }
    }

    /// The character's starter ability (its item occupies slot 0).
    pub fn starter_ability(self) -> (a: AbilityId)
        ensures
            a == (match self {
                CharacterId::Sentinel => AbilityId::Firebolt,
                CharacterId::Arcanist => AbilityId::MagicMissile,
            }),
    {
        match self {
            CharacterId::Sentinel => AbilityId::Firebolt,
            CharacterId::Arcanist => AbilityId::MagicMissile,
        }
    }
}

} // verus!
