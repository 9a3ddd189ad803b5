//! The drop table: when an enemy dies it drops an orb 30% of the time; of the
//! drops, 55% are health orbs and the rest timed buffs, rage or haste with even
//! odds.

use vstd::prelude::*;

use rand::rngs::ThreadRng;

use crate::dice::{random_index, random_ratio};

verus! {

/// Chance that a dying enemy drops anything: 3 in 10.
pub const DROP_CHANCE_NUM: usize = 3;
pub const DROP_CHANCE_DEN: usize = 10;
/// Of the drops, the share that are health orbs: 11 in 20.
pub const HEAL_SHARE_NUM: usize = 11;
pub const HEAL_SHARE_DEN: usize = 20;
/// Of the buffs, the share that are rage rather than haste: 1 in 2.
pub const RAGE_SHARE_NUM: u32 = 1;
pub const RAGE_SHARE_DEN: u32 = 2;

/// What a dropped orb grants.
#[derive(Clone, Copy, PartialEq, Eq, Structural, Debug)]
pub enum DropKind {
    /// A health orb.
    Heal,
    /// A timed damage buff.
    Rage,
    /// A timed move-speed buff.
    Haste,
}

/// The drop for the three draws of the table: whether anything drops, whether
/// a drop is a health orb, and whether a buff is rage rather than haste.
pub open spec fn spec_drop(drops: bool, heal: bool, rage: bool) -> Option<DropKind> {
    if !drops {
        None
    } else if heal {
        Some(DropKind::Heal)
    } else if rage {
        Some(DropKind::Rage)
    } else {
        Some(DropKind::Haste)
    }
}

pub fn decide_drop(drops: bool, heal: bool, rage: bool) -> (d: Option<DropKind>)
    ensures
        d == spec_drop(drops, heal, rage),
{
    if !drops {
        None
    } else if heal {
        Some(DropKind::Heal)
    } else if rage {
        Some(DropKind::Rage)
    } else {
        Some(DropKind::Haste)
    }
}

/// The drop for a drop roll in `0..DROP_CHANCE_DEN`, a heal roll in
/// `0..HEAL_SHARE_DEN` and a rage draw: something drops when the drop roll is
/// among the first `DROP_CHANCE_NUM` values, and it is a health orb when the
/// heal roll is among the first `HEAL_SHARE_NUM`.
pub open spec fn spec_drop_for_rolls(drop_roll: int, heal_roll: int, rage: bool) -> Option<DropKind> {
    spec_drop(drop_roll < DROP_CHANCE_NUM, heal_roll < HEAL_SHARE_NUM, rage)
}

/// Decide the drop from the table's rolls.
pub fn drop_for_rolls(drop_roll: usize, heal_roll: usize, rage: bool) -> (d: Option<DropKind>)
    requires
        drop_roll < DROP_CHANCE_DEN,
        heal_roll < HEAL_SHARE_DEN,
    ensures
        d == spec_drop_for_rolls(drop_roll as int, heal_roll as int, rage),
{
    decide_drop(drop_roll < DROP_CHANCE_NUM, heal_roll < HEAL_SHARE_NUM, rage)
}

/// The drop table's odds, counted over equally likely rolls: of the
/// `DROP_CHANCE_DEN` drop rolls exactly `DROP_CHANCE_NUM` drop something,
/// whatever the other draws; of the `HEAL_SHARE_DEN` heal rolls of a drop,
/// exactly `HEAL_SHARE_NUM` give a health orb and the rest a buff; and the rage
/// draw picks rage over haste.
pub proof fn law_drop_odds(drop_roll: int, heal_roll: int, rage: bool)
    ensures
        Set::new(|r: int| 0 <= r < DROP_CHANCE_DEN && spec_drop_for_rolls(r, heal_roll, rage) is Some).len()
            == DROP_CHANCE_NUM,
        0 <= drop_roll < DROP_CHANCE_NUM ==> Set::new(
            |h: int| 0 <= h < HEAL_SHARE_DEN && spec_drop_for_rolls(drop_roll, h, rage) == Some(DropKind::Heal),
        ).len() == HEAL_SHARE_NUM,
        0 <= drop_roll < DROP_CHANCE_NUM && HEAL_SHARE_NUM <= heal_roll ==> spec_drop_for_rolls(
            drop_roll,
            heal_roll,
            rage,
        ) == (if rage {
            Some(DropKind::Rage)
        } else {
            Some(DropKind::Haste)
        }),
        DROP_CHANCE_NUM <= DROP_CHANCE_DEN && HEAL_SHARE_NUM <= HEAL_SHARE_DEN,
{
    let drops = Set::new(|r: int| 0 <= r < DROP_CHANCE_DEN && spec_drop_for_rolls(r, heal_roll, rage) is Some);
    assert(drops =~= vstd::set_lib::set_int_range(0, DROP_CHANCE_NUM as int));
    vstd::set_lib::lemma_int_range(0, DROP_CHANCE_NUM as int);
    if 0 <= drop_roll < DROP_CHANCE_NUM {
        let heals = Set::new(
            |h: int| 0 <= h < HEAL_SHARE_DEN && spec_drop_for_rolls(drop_roll, h, rage) == Some(DropKind::Heal),
        );
        assert(heals =~= vstd::set_lib::set_int_range(0, HEAL_SHARE_NUM as int));
        vstd::set_lib::lemma_int_range(0, HEAL_SHARE_NUM as int);
    }
}

/// Roll the drop table for one dying enemy: a drop roll, then a heal roll, then
/// a `RAGE_SHARE` draw, the later draws made only when they matter, and the
/// outcome decided by `drop_for_rolls`.
pub fn roll_drop(rng: &mut ThreadRng) -> (d: Option<DropKind>)
    ensures
        exists|drop_roll: int, heal_roll: int, rage: bool|
            0 <= drop_roll < DROP_CHANCE_DEN && 0 <= heal_roll < HEAL_SHARE_DEN
                && d == spec_drop_for_rolls(drop_roll, heal_roll, rage),
{
    let drop_roll: usize = random_index(rng, 0, DROP_CHANCE_DEN);
    if drop_roll >= DROP_CHANCE_NUM {
        return drop_for_rolls(drop_roll, 0, false);
    }
    let heal_roll: usize = random_index(rng, 0, HEAL_SHARE_DEN);
    if heal_roll < HEAL_SHARE_NUM {
        return drop_for_rolls(drop_roll, heal_roll, false);
    }
    let rage = random_ratio(rng, RAGE_SHARE_NUM, RAGE_SHARE_DEN);
    drop_for_rolls(drop_roll, heal_roll, rage)
}

} // verus!
