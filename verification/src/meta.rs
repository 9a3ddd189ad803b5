//! Metaprogression: souls banked across runs buy permanent stat ranks that fold
//! into every future character's starting attributes. Each rank costs ten souls
//! more than the one before.

use vstd::prelude::*;

use crate::text::{decimal, push_decimal};

verus! {

/// Persistent player progress.
#[derive(Clone, Copy, PartialEq, Eq, Structural, Debug)]
pub struct MetaProgress {
    pub souls: u32,
    pub vitality_ranks: u32,
    pub damage_ranks: u32,
    pub move_speed_ranks: u32,
}

/// The highest rank whose next rank still has a price that fits in a `u32`.
pub const MAX_RANK: u32 = 429_496_728;

/// The buyable upgrades.
#[derive(Clone, Copy, PartialEq, Eq, Structural, Debug)]
pub enum Upgrade {
    Vitality,
    Damage,
    MoveSpeed,
}

/// Number of buyable upgrades.
pub const UPGRADE_COUNT: usize = 3;

pub open spec fn spec_upgrade_at(index: int) -> Upgrade {
    if index == 0 {
        Upgrade::Vitality
    } else if index == 1 {
        Upgrade::Damage
    } else {
        Upgrade::MoveSpeed
    }
}

pub open spec fn spec_upgrade_name(up: Upgrade) -> Seq<char> {
    match up {
        Upgrade::Vitality => "Vitality"@,
        Upgrade::Damage => "Damage"@,
        Upgrade::MoveSpeed => "Move Speed"@,
    }
}

pub open spec fn spec_ranks(up: Upgrade, meta: MetaProgress) -> u32 {
    match up {
        Upgrade::Vitality => meta.vitality_ranks,
        Upgrade::Damage => meta.damage_ranks,
        Upgrade::MoveSpeed => meta.move_speed_ranks,
    }
}

/// Escalating cost: 10, 20, 30, ...
pub open spec fn spec_cost(up: Upgrade, meta: MetaProgress) -> int {
    (spec_ranks(up, meta) + 1) * 10
}

/// `meta` with one more rank of `up`.
pub open spec fn with_rank(up: Upgrade, meta: MetaProgress) -> MetaProgress {
    match up {
        Upgrade::Vitality => MetaProgress { vitality_ranks: (meta.vitality_ranks + 1) as u32, ..meta },
        Upgrade::Damage => MetaProgress { damage_ranks: (meta.damage_ranks + 1) as u32, ..meta },
        Upgrade::MoveSpeed => MetaProgress {
            move_speed_ranks: (meta.move_speed_ranks + 1) as u32,
            ..meta
        },
    }
}

/// Whether buying `up` succeeds, and the progress afterwards.
pub open spec fn spec_buy(up: Upgrade, meta: MetaProgress) -> (bool, MetaProgress) {
    if meta.souls < spec_cost(up, meta) {
        (false, meta)
    } else {
        (true, with_rank(up, MetaProgress { souls: (meta.souls - spec_cost(up, meta)) as u32, ..meta }))
    }
}

impl Upgrade {
    /// The upgrade at `index` in menu order.
    pub fn at(index: usize) -> (up: Upgrade)
        requires
            index < UPGRADE_COUNT,
        ensures
            up == spec_upgrade_at(index as int),
    {
        match index {
            0 => Upgrade::Vitality,
            1 => Upgrade::Damage,
            _ => Upgrade::MoveSpeed,
        }
    }

    pub fn name(self) -> (s: &'static str)
        ensures
            s@ == spec_upgrade_name(self),
    {
        match self {
            Upgrade::Vitality => "Vitality",
            Upgrade::Damage => "Damage",
            Upgrade::MoveSpeed => "Move Speed",
        }
    }

    /// Ranks bought of this upgrade.
    pub fn ranks(self, meta: &MetaProgress) -> (r: u32)
        ensures
            r == spec_ranks(self, *meta),
    {
        match self {
            Upgrade::Vitality => meta.vitality_ranks,
            Upgrade::Damage => meta.damage_ranks,
            Upgrade::MoveSpeed => meta.move_speed_ranks,
        }
    }

    /// The price of the next rank: ten souls per rank it would make.
    pub fn cost(self, meta: &MetaProgress) -> (c: u32)
        requires
            spec_ranks(self, *meta) <= MAX_RANK,
        ensures
            c == spec_cost(self, *meta),
    {
        (self.ranks(meta) + 1) * 10
    }

    /// Buy a rank if affordable; returns true on success. A purchase spends
    /// exactly the price and adds one rank; a refusal changes nothing.
    pub fn buy(self, meta: &mut MetaProgress) -> (bought: bool)
        requires
            spec_ranks(self, *old(meta)) <= MAX_RANK,
        ensures
            (bought, *final(meta)) == spec_buy(self, *old(meta)),
    {
        let cost: u32 = self.cost(meta);
        if meta.souls < cost {
            return false;
        }
        meta.souls = meta.souls - cost;
        match self {
            Upgrade::Vitality => meta.vitality_ranks = meta.vitality_ranks + 1,
            Upgrade::Damage => meta.damage_ranks = meta.damage_ranks + 1,
            Upgrade::MoveSpeed => meta.move_speed_ranks = meta.move_speed_ranks + 1,
        }
        true
    }
}

/// One permanent bonus to fold into a fresh character's stats.
#[derive(Clone, Copy, Debug)]
pub struct RankBonus {
    /// The attribute that receives the bonus.
    pub attribute: &'static str,
    /// The flat bonus, in tenths of a point.
    pub tenths: u64,
}

/// Bonus per rank, in tenths: 2 Vitality, 2 Damage, 0.3 MoveSpeed.
pub open spec fn spec_tenths_per_rank(up: Upgrade) -> int {
    match up {
        Upgrade::Vitality => 20,
        Upgrade::Damage => 20,
        Upgrade::MoveSpeed => 3,
    }
}

pub open spec fn spec_attribute(up: Upgrade) -> Seq<char> {
    match up {
        Upgrade::Vitality => "Vitality"@,
        Upgrade::Damage => "Damage"@,
        Upgrade::MoveSpeed => "MoveSpeed"@,
    }
}

/// The bonuses `meta` grants, in upgrade order: one per upgrade with at least one rank.
pub open spec fn spec_bonus_upgrades(meta: MetaProgress) -> Seq<Upgrade> {
    let a = if meta.vitality_ranks > 0 { seq![Upgrade::Vitality] } else { Seq::empty() };
    let b = if meta.damage_ranks > 0 { seq![Upgrade::Damage] } else { Seq::empty() };
    let c = if meta.move_speed_ranks > 0 { seq![Upgrade::MoveSpeed] } else { Seq::empty() };
    a + b + c
}

/// `s` with its spaces taken out.
pub open spec fn without_spaces(s: Seq<char>) -> Seq<char>
    decreases s.len(),
{
    if s.len() == 0 {
        s
    } else if s.last() == ' ' {
        without_spaces(s.drop_last())
    } else {
        without_spaces(s.drop_last()).push(s.last())
    }
}

/// Each bought upgrade's bonus lands on that upgrade's own attribute: the
/// attribute is the upgrade's display name run together (`Move Speed` gives
/// `MoveSpeed`), no two upgrades share an attribute, and an upgrade contributes
/// a bonus exactly when it has at least one rank.
pub proof fn law_bonus_on_own_attribute(meta: MetaProgress, up: Upgrade, other: Upgrade)
    ensures
        spec_attribute(up) == without_spaces(spec_upgrade_name(up)),
        up != other ==> spec_attribute(up) != spec_attribute(other),
        spec_bonus_upgrades(meta).contains(up) <==> spec_ranks(up, meta) > 0,
{
    reveal_strlit("Vitality");
    reveal_strlit("Damage");
    reveal_strlit("MoveSpeed");
    reveal_strlit("Move Speed");
    reveal_with_fuel(without_spaces, 11);
    assert("Vitality"@ =~= seq!['V', 'i', 't', 'a', 'l', 'i', 't', 'y']);
    assert("Damage"@ =~= seq!['D', 'a', 'm', 'a', 'g', 'e']);
    assert("Move Speed"@ =~= seq!['M', 'o', 'v', 'e', ' ', 'S', 'p', 'e', 'e', 'd']);
    assert("MoveSpeed"@ =~= seq!['M', 'o', 'v', 'e', 'S', 'p', 'e', 'e', 'd']);
    assert("Vitality"@[0] != "Damage"@[0]);
    assert("Vitality"@[0] != "MoveSpeed"@[0]);
    assert("Damage"@[0] != "MoveSpeed"@[0]);
    let b = spec_bonus_upgrades(meta);
    if spec_ranks(up, meta) > 0 {
        let k: int = match up {
            Upgrade::Vitality => 0,
            Upgrade::Damage => if meta.vitality_ranks > 0 { 1 } else { 0 },
            Upgrade::MoveSpeed => (if meta.vitality_ranks > 0 { 1int } else { 0 }) + (if meta.damage_ranks > 0 { 1int } else { 0 }),
        };
        assert(b[k] == up);
    }
}

impl MetaProgress {
    /// No souls, no ranks.
    pub fn new() -> (m: Self)
        ensures
            m == (MetaProgress { souls: 0, vitality_ranks: 0, damage_ranks: 0, move_speed_ranks: 0 }),
    {
        MetaProgress { souls: 0, vitality_ranks: 0, damage_ranks: 0, move_speed_ranks: 0 }
    }

    /// Each enemy killed banks a soul.
    pub fn earn_soul(&mut self)
        requires
            old(self).souls < u32::MAX,
        ensures
            *final(self) == (MetaProgress { souls: (old(self).souls + 1) as u32, ..*old(self) }),
    {
        self.souls = self.souls + 1;
    }

    /// The purchased ranks as bonuses to fold into a character's starting
    /// stats: for each upgrade with at least one rank, its attribute and
    /// `ranks * per-rank bonus`.
    pub fn rank_bonuses(&self) -> (v: Vec<RankBonus>)
        ensures
            v@.len() == spec_bonus_upgrades(*self).len(),
            forall|i: int|
                0 <= i < v@.len() ==> {
                    let up = #[trigger] spec_bonus_upgrades(*self)[i];
                    &&& v@[i].attribute@ == spec_attribute(up)
                    &&& v@[i].tenths == spec_ranks(up, *self) * spec_tenths_per_rank(up)
                },
    {
        let mut v: Vec<RankBonus> = Vec::new();
        if self.vitality_ranks > 0 {
            v.push(RankBonus { attribute: "Vitality", tenths: self.vitality_ranks as u64 * 20 });
        }
        if self.damage_ranks > 0 {
            v.push(RankBonus { attribute: "Damage", tenths: self.damage_ranks as u64 * 20 });
        }
        if self.move_speed_ranks > 0 {
            v.push(RankBonus { attribute: "MoveSpeed", tenths: self.move_speed_ranks as u64 * 3 });
        }
        v
    }
}

impl Default for MetaProgress {
    fn default() -> (m: Self)
        ensures
            m == (MetaProgress { souls: 0, vitality_ranks: 0, damage_ranks: 0, move_speed_ranks: 0 }),
    {
        MetaProgress::new()
    }
}

/// Buy the upgrade at `index` in menu order. Returns whether the purchase
/// happened (the caller then persists the progress).
pub fn try_buy(meta: &mut MetaProgress, index: usize) -> (bought: bool)
    requires
        index < UPGRADE_COUNT,
        spec_ranks(spec_upgrade_at(index as int), *old(meta)) <= MAX_RANK,
    ensures
        (bought, *final(meta)) == spec_buy(spec_upgrade_at(index as int), *old(meta)),
{
    Upgrade::at(index).buy(meta)
}

/// A purchase succeeds exactly when the souls cover the price; it spends
/// exactly the price, adds one rank to the bought upgrade and none to the
/// others, and raises that upgrade's next price by ten.
pub proof fn law_buy(up: Upgrade, other: Upgrade, meta: MetaProgress)
    requires
        spec_ranks(up, meta) <= MAX_RANK,
    ensures
        spec_buy(up, meta).0 == (meta.souls >= spec_cost(up, meta)),
        spec_buy(up, meta).0 ==> {
            let after = spec_buy(up, meta).1;
            &&& after.souls + spec_cost(up, meta) == meta.souls
            &&& spec_ranks(up, after) == spec_ranks(up, meta) + 1
            &&& spec_cost(up, after) == spec_cost(up, meta) + 10
            &&& other != up ==> spec_ranks(other, after) == spec_ranks(other, meta)
        },
        !spec_buy(up, meta).0 ==> spec_buy(up, meta).1 == meta,
{
}

/// Prices escalate: the `k`-th rank of an upgrade costs `10 * k` souls.
pub proof fn law_cost_escalates(up: Upgrade, meta: MetaProgress)
    ensures
        spec_cost(up, meta) == 10 * (spec_ranks(up, meta) + 1),
{
}

/// The text of the buy button for the upgrade at `index`.
pub open spec fn spec_upgrade_label(index: int, meta: MetaProgress) -> Seq<char> {
    let up = spec_upgrade_at(index);
    spec_upgrade_name(up) + "   rank "@ + decimal(spec_ranks(up, meta) as nat) + "   -   "@ + decimal(
        spec_cost(up, meta) as nat,
    ) + " souls"@
}

/// `Name   rank R   -   C souls` for the upgrade at `index`.
pub fn upgrade_label(index: usize, meta: &MetaProgress) -> (s: String)
    requires
        index < UPGRADE_COUNT,
        spec_ranks(spec_upgrade_at(index as int), *meta) <= MAX_RANK,
    ensures
        s@ == spec_upgrade_label(index as int, *meta),
{
    let up = Upgrade::at(index);
    let mut s = String::new();
    s.append(up.name());
    s.append("   rank ");
    push_decimal(&mut s, up.ranks(meta));
    s.append("   -   ");
    push_decimal(&mut s, up.cost(meta));
    s.append(" souls");
    assert(s@ =~= spec_upgrade_label(index as int, *meta));
    s
}

/// `Souls: N`, the soul balance shown in the HUD and on the upgrades screen.
pub fn souls_label(meta: &MetaProgress) -> (s: String)
    ensures
        s@ == "Souls: "@ + decimal(meta.souls as nat),
{
    let mut s = String::new();
    s.append("Souls: ");
    push_decimal(&mut s, meta.souls);
    assert(s@ =~= "Souls: "@ + decimal(meta.souls as nat));
    s
}

} // verus!
