//! Leveling and the level-up draft. Collected gems grant XP; reaching the
//! threshold levels up (the threshold grows by two each level) and opens a
//! draft of up to three distinct upgrades: acquiring a new item, ranking up one
//! stat of an equipped item's ability, or a player-wide passive.

use vstd::prelude::*;

use rand::rngs::ThreadRng;

use crate::ability::{
    has_room, held, somes, spec_acquire, Inventory, Slots, EQUIP_COUNT,
};
use crate::data::abilities::{spec_ability_stats, AbilityDef, AbilityStats};
use crate::data::items::{self, spec_all_items, spec_item_ability, ItemId};
use crate::data::abilities::spec_ability_name;
use crate::data::items::spec_item_name;
use crate::dice::{random_index, thread_rng};
use crate::text::{decimal, digit_char, push_decimal};

verus! {

// ---------------------------------------------------------------------------
// Experience
// ---------------------------------------------------------------------------

/// Experience toward the next level.
pub struct Experience {
    pub current: u32,
    pub level: u32,
    pub to_next: u32,
}

impl Experience {
    /// The threshold always sits at `2 * level + 1`.
    pub open spec fn wf(&self) -> bool {
        &&& self.level >= 1
        &&& self.to_next == 2 * self.level + 1
    }

    /// A fresh run: level 1, no XP, three XP to the next level.
    pub fn new() -> (xp: Self)
        ensures
            xp.current == 0,
            xp.level == 1,
            xp.to_next == 3,
            xp.wf(),
    {
        Experience { current: 0, level: 1, to_next: 3 }
    }

    /// Bank `value` XP from a collected gem.
    pub fn gain(&mut self, value: u32)
        requires
            old(self).current + value <= u32::MAX,
        ensures
            final(self).current == old(self).current + value,
            final(self).level == old(self).level,
            final(self).to_next == old(self).to_next,
    {
        self.current = self.current + value;
    }

    /// Consume XP and level up once the threshold is reached: the threshold's
    /// worth of XP is spent, the level rises by one and the next threshold is two
    /// higher. Returns whether a level-up happened (which opens the draft).
    pub fn check_level_up(&mut self) -> (leveled: bool)
        requires
            old(self).current >= old(self).to_next ==> old(self).to_next as int + 2 <= u32::MAX
                && old(self).level < u32::MAX,
        ensures
            leveled == (old(self).current >= old(self).to_next),
            leveled ==> final(self).current == old(self).current - old(self).to_next
                && final(self).level == old(self).level + 1
                && final(self).to_next == old(self).to_next + 2,
            !leveled ==> *final(self) == *old(self),
            old(self).wf() ==> final(self).wf(),
    {
        if self.current < self.to_next {
            return false;
        }
        self.current = self.current - self.to_next;
        self.level = self.level + 1;
        self.to_next = self.to_next + 2;
        true
    }
}

impl Experience {
    /// `Lv L   XP C/T`, the level readout of the HUD.
    pub fn label(&self) -> (s: String)
        ensures
            s@ == "Lv "@ + decimal(self.level as nat) + "   XP "@ + decimal(self.current as nat) + "/"@
                + decimal(self.to_next as nat),
    {
        let mut s = String::new();
        s.append("Lv ");
        push_decimal(&mut s, self.level);
        s.append("   XP ");
        push_decimal(&mut s, self.current);
        s.append("/");
        push_decimal(&mut s, self.to_next);
        assert(s@ =~= "Lv "@ + decimal(self.level as nat) + "   XP "@ + decimal(self.current as nat)
            + "/"@ + decimal(self.to_next as nat));
        s
    }
}

impl Default for Experience {
    fn default() -> (xp: Self)
        ensures
            xp.current == 0,
            xp.level == 1,
            xp.to_next == 3,
    {
        Experience::new()
    }
}

/// The XP needed to go from level 1 to level `level`: `3 + 5 + ... + (2 * level - 1)`.
pub open spec fn xp_to_reach(level: nat) -> nat
    decreases level,
{
    if level <= 1 {
        0
    } else {
        xp_to_reach((level - 1) as nat) + (2 * level - 1) as nat
    }
}

/// Leveling never loses XP: a level-up spends exactly the threshold, so the XP
/// spent on levels plus the XP in hand is unchanged, and it equals
/// `level * level - 1` spent plus what is left.
pub proof fn law_level_up_conserves_xp(current: nat, level: nat)
    requires
        level >= 1,
        current >= 2 * level + 1,
    ensures
        xp_to_reach(level + 1) + (current - (2 * level + 1)) == xp_to_reach(level) + current,
        xp_to_reach(level) == level * level - 1,
    decreases level,
{
    lemma_xp_to_reach(level);
}

proof fn lemma_xp_to_reach(level: nat)
    requires
        level >= 1,
    ensures
        xp_to_reach(level) == level * level - 1,
    decreases level,
{
    if level > 1 {
        let m: nat = (level - 1) as nat;
        lemma_xp_to_reach(m);
        assert(xp_to_reach(level) == xp_to_reach(m) + (2 * level - 1) as nat);
        assert(xp_to_reach(m) == m * m - 1);
        assert(level * level == m * m + 2 * m + 1) by (nonlinear_arith)
            requires
                m == level - 1,
        ;
    } else {
        assert(level * level == 1) by (nonlinear_arith)
            requires
                level == 1,
        ;
    }
}

// ---------------------------------------------------------------------------
// Rarity tiers
// ---------------------------------------------------------------------------

/// A rarity tier for a rolled upgrade: rarer tiers grant a bigger percentage.
#[derive(Clone, Copy, PartialEq, Eq, Structural, Debug)]
pub enum Tier {
    Common,
    Rare,
    Legendary,
}

/// Relative roll weight of each tier.
pub open spec fn spec_tier_weight(t: Tier) -> nat {
    match t {
        Tier::Common => 60,
        Tier::Rare => 30,
        Tier::Legendary => 10,
    }
}

/// The percentage of the stat's current value an upgrade of this tier adds or removes.
pub open spec fn spec_tier_pct(t: Tier) -> nat {
    match t {
        Tier::Common => 10,
        Tier::Rare => 20,
        Tier::Legendary => 35,
    }
}

pub open spec fn spec_tier_label(t: Tier) -> Seq<char> {
    match t {
        Tier::Common => "Common"@,
        Tier::Rare => "Rare"@,
        Tier::Legendary => "Legendary"@,
    }
}

/// The tiers in roll order.
pub open spec fn spec_tiers() -> Seq<Tier> {
    seq![Tier::Common, Tier::Rare, Tier::Legendary]
}

/// The sum of all tier weights.
pub const TIER_TOTAL: usize = 100;

impl Tier {
    pub fn label(self) -> (s: &'static str)
        ensures
            s@ == spec_tier_label(self),
    {
        match self {
            Tier::Common => "Common",
            Tier::Rare => "Rare",
            Tier::Legendary => "Legendary",
        }
    }

    /// Whole percent of the stat's current value.
    pub fn pct(self) -> (p: u32)
        ensures
            p == spec_tier_pct(self),
    {
        match self {
            Tier::Common => 10,
            Tier::Rare => 20,
            Tier::Legendary => 35,
        }
    }

    pub fn weight(self) -> (w: u32)
        ensures
            w == spec_tier_weight(self),
    {
        match self {
            Tier::Common => 60,
            Tier::Rare => 30,
            Tier::Legendary => 10,
        }
    }
}

/// The tier a roll `r` in `0..TIER_TOTAL` lands on: walking the tiers in order,
/// each takes the next `weight` values.
pub open spec fn spec_tier_for_roll(r: int) -> Tier {
    if r < 60 {
        Tier::Common
    } else if r < 90 {
        Tier::Rare
    } else {
        Tier::Legendary
    }
}

/// The weighted pick for a roll `r` drawn from `0..TIER_TOTAL`.
pub fn tier_for_roll(r: usize) -> (t: Tier)
    requires
        r < TIER_TOTAL,
    ensures
        t == spec_tier_for_roll(r as int),
{
    let tiers: [Tier; 3] = [Tier::Common, Tier::Rare, Tier::Legendary];
    let mut rest: usize = r;
    let mut i: usize = 0;
    while i < 3
        invariant
            i <= 3,
            tiers@ == spec_tiers(),
            r < TIER_TOTAL,
            i == 0 ==> rest == r,
            i == 1 ==> rest == r - 60 && r >= 60,
            i == 2 ==> rest == r - 90 && r >= 90,
            i == 3 ==> false,
        decreases 3 - i,
    {
        let tier = tiers[i];
        assert(tier == spec_tiers()[i as int]);
        let w: usize = tier.weight() as usize;
        if rest < w {
            return tier;
        }
        rest = rest - w;
        i = i + 1;
    }
    tiers[0]
}

/// A weighted roll over the tiers.
pub fn roll_tier(rng: &mut ThreadRng) -> (t: Tier)
    ensures
        exists|r: int| 0 <= r < TIER_TOTAL && t == spec_tier_for_roll(r),
{
    let r: usize = random_index(rng, 0, TIER_TOTAL);
    tier_for_roll(r)
}

/// The tier odds are the weights: out of the `TIER_TOTAL` equally likely rolls,
/// exactly `weight(t)` land on tier `t`, and the weights add up to the total.
pub proof fn law_tier_odds(t: Tier)
    ensures
        Set::new(|r: int| 0 <= r < TIER_TOTAL && spec_tier_for_roll(r) == t).len()
            == spec_tier_weight(t),
        spec_tier_weight(Tier::Common) + spec_tier_weight(Tier::Rare) + spec_tier_weight(
            Tier::Legendary,
        ) == TIER_TOTAL,
{
    let s = Set::new(|r: int| 0 <= r < TIER_TOTAL && spec_tier_for_roll(r) == t);
    let (lo, hi) = match t {
        Tier::Common => (0int, 60int),
        Tier::Rare => (60int, 90int),
        Tier::Legendary => (90int, 100int),
    };
    assert(s =~= vstd::set_lib::set_int_range(lo, hi));
    vstd::set_lib::lemma_int_range(lo, hi);
}

// ---------------------------------------------------------------------------
// Upgrade catalogs
// ---------------------------------------------------------------------------

/// How an upgrade changes an attribute.
#[derive(Clone, Copy, PartialEq, Eq, Structural, Debug)]
pub enum Op {
    /// `stat += stat * pct`: more is better (Damage, Area, ...).
    AddPct,
    /// `stat -= stat * pct`: less is better, self-flooring (cooldowns).
    SubPct,
    /// `stat += amount`: a fixed step (projectile count).
    AddFlat(u32),
}

/// A stat an ability exposes for per-ability rank-ups.
#[derive(Clone, Copy, Debug)]
pub struct AbilityStat {
    pub label: &'static str,
    pub stat: &'static str,
    pub op: Op,
}

/// A player-wide passive upgrade.
#[derive(Clone, Copy, Debug)]
pub struct GlobalUpgrade {
    pub label: &'static str,
    pub stat: &'static str,
    pub op: Op,
}

/// Number of per-ability rankable stats.
pub const ABILITY_STAT_COUNT: usize = 4;
/// Number of player-wide passive upgrades.
pub const GLOBAL_UPGRADE_COUNT: usize = 9;

/// Label, attribute and operation of each per-ability stat.
pub open spec fn spec_ability_stat(idx: int) -> (Seq<char>, Seq<char>, Op) {
    if idx == 0 {
        ("Damage"@, "Damage"@, Op::AddPct)
    } else if idx == 1 {
        ("Cooldown"@, "CooldownBase"@, Op::SubPct)
    } else if idx == 2 {
        ("Area"@, "AreaBase"@, Op::AddPct)
    } else {
        ("Speed"@, "ProjectileSpeedBase"@, Op::AddPct)
    }
}

/// Label, attribute and operation of each global upgrade.
pub open spec fn spec_global_upgrade(kind: int) -> (Seq<char>, Seq<char>, Op) {
    if kind == 0 {
        ("Power"@, "Damage"@, Op::AddPct)
    } else if kind == 1 {
        ("Swiftness"@, "AttackSpeed"@, Op::AddPct)
    } else if kind == 2 {
        ("Expanse"@, "Area"@, Op::AddPct)
    } else if kind == 3 {
        ("Velocity"@, "ProjectileSpeed"@, Op::AddPct)
    } else if kind == 4 {
        ("Cooldown"@, "CooldownMult"@, Op::SubPct)
    } else if kind == 5 {
        ("Multishot"@, "ProjectileCount"@, Op::AddFlat(1))
    } else if kind == 6 {
        ("Vigor"@, "Vitality"@, Op::AddPct)
    } else if kind == 7 {
        ("Fleet"@, "MoveSpeed"@, Op::AddPct)
    } else {
        ("Magnet"@, "PickupRadius"@, Op::AddPct)
    }
}

/// The per-ability stat at `idx`.
pub fn ability_stat(idx: usize) -> (a: AbilityStat)
    requires
        idx < ABILITY_STAT_COUNT,
    ensures
        (a.label@, a.stat@, a.op) == spec_ability_stat(idx as int),
{
    match idx {
        0 => AbilityStat { label: "Damage", stat: "Damage", op: Op::AddPct },
        1 => AbilityStat { label: "Cooldown", stat: "CooldownBase", op: Op::SubPct },
        2 => AbilityStat { label: "Area", stat: "AreaBase", op: Op::AddPct },
        _ => AbilityStat { label: "Speed", stat: "ProjectileSpeedBase", op: Op::AddPct },
    }
}

/// The global upgrade of kind `kind`.
pub fn global_upgrade(kind: usize) -> (g: GlobalUpgrade)
    requires
        kind < GLOBAL_UPGRADE_COUNT,
    ensures
        (g.label@, g.stat@, g.op) == spec_global_upgrade(kind as int),
{
    match kind {
        0 => GlobalUpgrade { label: "Power", stat: "Damage", op: Op::AddPct },
        1 => GlobalUpgrade { label: "Swiftness", stat: "AttackSpeed", op: Op::AddPct },
        2 => GlobalUpgrade { label: "Expanse", stat: "Area", op: Op::AddPct },
        3 => GlobalUpgrade { label: "Velocity", stat: "ProjectileSpeed", op: Op::AddPct },
        4 => GlobalUpgrade { label: "Cooldown", stat: "CooldownMult", op: Op::SubPct },
        5 => GlobalUpgrade { label: "Multishot", stat: "ProjectileCount", op: Op::AddFlat(1) },
        6 => GlobalUpgrade { label: "Vigor", stat: "Vitality", op: Op::AddPct },
        7 => GlobalUpgrade { label: "Fleet", stat: "MoveSpeed", op: Op::AddPct },
        _ => GlobalUpgrade { label: "Magnet", stat: "PickupRadius", op: Op::AddPct },
    }
}

/// Whether an ability with `stats` exposes the per-ability stat at `idx`:
/// Damage always, the rest as the ability declares.
pub open spec fn spec_has_stat(stats: AbilityStats, idx: int) -> bool {
    if idx == 0 {
        true
    } else if idx == 1 {
        stats.cooldown
    } else if idx == 2 {
        stats.area
    } else if idx == 3 {
        stats.projectile_speed
    } else {
        false
    }
}

/// Whether `def` exposes the stat at `idx` for a rank-up.
pub fn ability_has_stat(def: &AbilityDef, idx: usize) -> (r: bool)
    ensures
        r == spec_has_stat(def.stats, idx as int),
{
    match idx {
        0 => true,
        1 => def.stats.cooldown,
        2 => def.stats.area,
        3 => def.stats.projectile_speed,
        _ => false,
    }
}

// ---------------------------------------------------------------------------
// The draft
// ---------------------------------------------------------------------------

/// One choice on the level-up screen. Rank-ups carry their pre-rolled tier so
/// the offered magnitude is fixed and shown.
#[derive(Clone, Copy, PartialEq, Eq, Structural, Debug)]
pub enum DraftOption {
    /// Acquire a not-yet-held item.
    Equip(ItemId),
    /// Buff one stat of an equipped item's ability.
    AbilityUp { item: ItemId, stat: usize, tier: Tier },
    /// Buff a player-wide passive.
    Global { kind: usize, tier: Tier },
}

/// The choices offered on the current level-up screen.
pub struct Draft {
    pub options: Vec<DraftOption>,
}

impl Default for Draft {
    fn default() -> (d: Self)
        ensures
            d.options@.len() == 0,
    {
        Draft { options: Vec::new() }
    }
}

/// `o` with the tier `t`; an acquire option has no tier.
pub open spec fn with_tier(o: DraftOption, t: Tier) -> DraftOption {
    match o {
        DraftOption::Equip(id) => DraftOption::Equip(id),
        DraftOption::AbilityUp { item, stat, .. } => DraftOption::AbilityUp { item, stat, tier: t },
        DraftOption::Global { kind, .. } => DraftOption::Global { kind, tier: t },
    }
}

/// `shape` with each option given the tier its roll (same position) lands on.
pub open spec fn tiered(shape: Seq<DraftOption>, rolls: Seq<usize>) -> Seq<DraftOption> {
    Seq::new(shape.len(), |i: int| with_tier(shape[i], spec_tier_for_roll(rolls[i] as int)))
}

/// Tier rolls for a pool of `n`: one per position, each in `0..TIER_TOTAL`.
pub open spec fn valid_rolls(n: nat, rolls: Seq<usize>) -> bool {
    &&& rolls.len() >= n
    &&& forall|i: int| 0 <= i < n ==> #[trigger] rolls[i] < TIER_TOTAL
}

/// Acquire options for the first `n` catalog items that are not held.
pub open spec fn equip_options(s: Slots, n: nat) -> Seq<DraftOption>
    decreases n,
{
    if n == 0 {
        Seq::empty()
    } else {
        let id = spec_all_items()[n - 1];
        if !held(s, id) {
            equip_options(s, (n - 1) as nat).push(DraftOption::Equip(id))
        } else {
            equip_options(s, (n - 1) as nat)
        }
    }
}

/// Rank-up options (tier forgotten) for the first `n` stats `item`'s ability exposes.
pub open spec fn stat_options(item: ItemId, n: nat) -> Seq<DraftOption>
    decreases n,
{
    if n == 0 {
        Seq::empty()
    } else if spec_has_stat(spec_ability_stats(spec_item_ability(item)), n - 1) {
        stat_options(item, (n - 1) as nat).push(
            DraftOption::AbilityUp { item, stat: (n - 1) as usize, tier: Tier::Common },
        )
    } else {
        stat_options(item, (n - 1) as nat)
    }
}

/// Rank-up options (tier forgotten) for the first `n` equipped items.
pub open spec fn rank_options(equipped: Seq<ItemId>, n: nat) -> Seq<DraftOption>
    decreases n,
{
    if n == 0 {
        Seq::empty()
    } else {
        rank_options(equipped, (n - 1) as nat) + stat_options(
            equipped[n - 1],
            ABILITY_STAT_COUNT as nat,
        )
    }
}

/// Global options (tier forgotten) for the first `n` kinds.
pub open spec fn global_options(n: nat) -> Seq<DraftOption>
    decreases n,
{
    if n == 0 {
        Seq::empty()
    } else {
        global_options((n - 1) as nat).push(
            DraftOption::Global { kind: (n - 1) as usize, tier: Tier::Common },
        )
    }
}

/// The draft pool for an inventory, tiers forgotten: an acquire option for each
/// catalog item not held (only while the backpack has room), a rank-up for each
/// stat an equipped item's ability exposes, and one global passive per kind.
pub open spec fn spec_pool_shape(s: Slots) -> Seq<DraftOption> {
    let equipped = somes(s.take(EQUIP_COUNT as int));
    (if has_room(s) {
        equip_options(s, 10)
    } else {
        Seq::empty()
    }) + rank_options(equipped, equipped.len()) + global_options(GLOBAL_UPGRADE_COUNT as nat)
}

/// The draft pool for an inventory with the tiers that `rolls` land on.
pub open spec fn spec_pool(s: Slots, rolls: Seq<usize>) -> Seq<DraftOption> {
    tiered(spec_pool_shape(s), rolls)
}

/// `picks` are distinct entries of `pool`: each is taken from its own position.
pub open spec fn distinct_picks(picks: Seq<DraftOption>, pool: Seq<DraftOption>) -> bool {
    exists|p: Seq<int>|
        #![trigger p.len()]
        p.len() == picks.len() && (forall|i: int|
            0 <= i < p.len() ==> 0 <= #[trigger] p[i] < pool.len() && picks[i] == pool[p[i]])
            && (forall|i: int, j: int| 0 <= i < p.len() && 0 <= j < p.len() && i != j ==> p[i] != p[j])
}

fn equip_part(inv: &Inventory) -> (v: Vec<DraftOption>)
    requires
        inv.wf(),
    ensures
        v@ == (if has_room(inv@) {
            equip_options(inv@, 10)
        } else {
            Seq::empty()
        }),
{
    let mut v: Vec<DraftOption> = Vec::new();
    if !inv.backpack_has_room() {
        return v;
    }
    let all = items::all();
    let mut i: usize = 0;
    while i < all.len()
        invariant
            inv.wf(),
            all@ == spec_all_items(),
            i <= all@.len(),
            v@ == equip_options(inv@, i as nat),
        decreases all@.len() - i,
    {
        let id = all[i];
        if !inv.contains(id) {
            v.push(DraftOption::Equip(id));
        }
        i = i + 1;
    }
    v
}

fn rank_part(equipped: &Vec<ItemId>) -> (v: Vec<DraftOption>)
    ensures
        v@ == rank_options(equipped@, equipped@.len()),
{
    let mut v: Vec<DraftOption> = Vec::new();
    let mut i: usize = 0;
    while i < equipped.len()
        invariant
            i <= equipped@.len(),
            v@ == rank_options(equipped@, i as nat),
        decreases equipped@.len() - i,
    {
        let item = equipped[i];
        let def = item.def().ability.def();
        let mut idx: usize = 0;
        while idx < ABILITY_STAT_COUNT
            invariant
                idx <= ABILITY_STAT_COUNT,
                def.stats == spec_ability_stats(spec_item_ability(item)),
                v@ == rank_options(equipped@, i as nat) + stat_options(item, idx as nat),
            decreases ABILITY_STAT_COUNT - idx,
        {
            if ability_has_stat(&def, idx) {
                let ghost prev = v@;
                v.push(DraftOption::AbilityUp { item, stat: idx, tier: Tier::Common });
                assert(v@ =~= rank_options(equipped@, i as nat) + stat_options(item, (idx + 1) as nat));
            } else {
                assert(stat_options(item, (idx + 1) as nat) == stat_options(item, idx as nat));
            }
            idx = idx + 1;
        }
        assert(rank_options(equipped@, (i + 1) as nat) =~= rank_options(equipped@, i as nat)
            + stat_options(equipped@[i as int], ABILITY_STAT_COUNT as nat));
        i = i + 1;
    }
    v
}

fn global_part() -> (v: Vec<DraftOption>)
    ensures
        v@ == global_options(GLOBAL_UPGRADE_COUNT as nat),
{
    let mut v: Vec<DraftOption> = Vec::new();
    let mut kind: usize = 0;
    while kind < GLOBAL_UPGRADE_COUNT
        invariant
            kind <= GLOBAL_UPGRADE_COUNT,
            v@ == global_options(kind as nat),
        decreases GLOBAL_UPGRADE_COUNT - kind,
    {
        v.push(DraftOption::Global { kind, tier: Tier::Common });
        kind = kind + 1;
    }
    v
}

/// The draft pool for `inv` with every tier still `Common`.
fn pool_shape(inv: &Inventory) -> (pool: Vec<DraftOption>)
    requires
        inv.wf(),
    ensures
        pool@ == spec_pool_shape(inv@),
{
    let equipped = inv.equipped();
    let mut pool = equip_part(inv);
    let mut ranks = rank_part(&equipped);
    let mut globals = global_part();
    let ghost (a, b, c) = (pool@, ranks@, globals@);
    pool.append(&mut ranks);
    pool.append(&mut globals);
    assert(pool@ =~= a + b + c);
    pool
}

/// Give each rank-up and global option of `shape` the tier its roll lands on.
fn apply_tiers(shape: Vec<DraftOption>, rolls: &Vec<usize>) -> (pool: Vec<DraftOption>)
    requires
        valid_rolls(shape@.len(), rolls@),
    ensures
        pool@ == tiered(shape@, rolls@),
{
    let mut pool: Vec<DraftOption> = Vec::new();
    let mut i: usize = 0;
    while i < shape.len()
        invariant
            valid_rolls(shape@.len(), rolls@),
            i <= shape@.len(),
            pool@ == tiered(shape@, rolls@).take(i as int),
        decreases shape@.len() - i,
    {
        let o = match shape[i] {
            DraftOption::Equip(id) => DraftOption::Equip(id),
            DraftOption::AbilityUp { item, stat, .. } => DraftOption::AbilityUp {
                item,
                stat,
                tier: tier_for_roll(rolls[i]),
            },
            DraftOption::Global { kind, .. } => DraftOption::Global { kind, tier: tier_for_roll(rolls[i]) },
        };
        pool.push(o);
        assert(pool@ =~= tiered(shape@, rolls@).take(i + 1));
        i = i + 1;
    }
    assert(pool@ =~= tiered(shape@, rolls@));
    pool
}

/// The draft pool for `inv` with the tiers that `rolls` (one per pool
/// position, each in `0..TIER_TOTAL`) land on.
pub fn build_pool_with(inv: &Inventory, rolls: &Vec<usize>) -> (pool: Vec<DraftOption>)
    requires
        inv.wf(),
        valid_rolls(spec_pool_shape(inv@).len(), rolls@),
    ensures
        pool@ == spec_pool(inv@, rolls@),
{
    let shape = pool_shape(inv);
    apply_tiers(shape, rolls)
}

/// Build the draft pool for `inv`, rolling a fresh tier for every rank-up and
/// global option.
pub fn build_pool(inv: &Inventory, rng: &mut ThreadRng) -> (pool: Vec<DraftOption>)
    requires
        inv.wf(),
    ensures
        exists|rolls: Seq<usize>|
            valid_rolls(spec_pool_shape(inv@).len(), rolls) && pool@ == spec_pool(inv@, rolls),
{
    let shape = pool_shape(inv);
    let mut rolls: Vec<usize> = Vec::new();
    let mut i: usize = 0;
    while i < shape.len()
        invariant
            i <= shape@.len(),
            rolls@.len() == i,
            forall|k: int| 0 <= k < i ==> #[trigger] rolls@[k] < TIER_TOTAL,
        decreases shape@.len() - i,
    {
        let r: usize = match shape[i] {
            DraftOption::Equip(_) => 0,
            _ => random_index(rng, 0, TIER_TOTAL),
        };
        rolls.push(r);
        i = i + 1;
    }
    let pool = apply_tiers(shape, &rolls);
    assert(valid_rolls(spec_pool_shape(inv@).len(), rolls@) && pool@ == spec_pool(inv@, rolls@));
    pool
}

/// The pool after the first `k` steps of a Fisher-Yates shuffle: step `i`
/// swaps position `i` with position `draws[i]`.
pub open spec fn shuffle_prefix(pool: Seq<DraftOption>, draws: Seq<usize>, k: nat) -> Seq<DraftOption>
    decreases k,
{
    if k == 0 {
        pool
    } else {
        let s = shuffle_prefix(pool, draws, (k - 1) as nat);
        let i = k - 1;
        let j = draws[i] as int;
        s.update(i, s[j]).update(j, s[i])
    }
}

/// How many options a draft offers from a pool of `n`: three, or all of a
/// smaller pool.
pub open spec fn offer_count(n: nat) -> nat {
    if n < 3 {
        n
    } else {
        3
    }
}

/// Draws that a shuffle of a pool of `n` may make: step `i` picks a position
/// in `i..n`.
pub open spec fn valid_draws(n: nat, draws: Seq<usize>) -> bool {
    &&& draws.len() >= offer_count(n)
    &&& forall|i: int| 0 <= i < offer_count(n) ==> i <= #[trigger] draws[i] < n
}

/// The offered options: the first `offer_count` positions after as many
/// shuffle steps.
pub open spec fn spec_offer(pool: Seq<DraftOption>, draws: Seq<usize>) -> Seq<DraftOption> {
    shuffle_prefix(pool, draws, offer_count(pool.len())).take(offer_count(pool.len()) as int)
}

/// Surface up to three distinct options of `pool` by a partial Fisher-Yates
/// shuffle with the given draws.
pub fn offer_with(pool: Vec<DraftOption>, draws: &Vec<usize>) -> (picks: Vec<DraftOption>)
    requires
        valid_draws(pool@.len(), draws@),
    ensures
        picks@ == spec_offer(pool@, draws@),
        picks@.len() == offer_count(pool@.len()),
        distinct_picks(picks@, pool@),
{
    let mut pool = pool;
    let ghost orig = pool@;
    let n: usize = pool.len();
    let offered: usize = if n < 3 {
        n
    } else {
        3
    };
    let ghost mut p: Seq<int> = Seq::new(n as nat, |k: int| k);
    let mut i: usize = 0;
    while i < offered
        invariant
            n == orig.len(),
            offered == offer_count(n as nat),
            offered <= n,
            offered <= 3,
            i <= offered,
            valid_draws(n as nat, draws@),
            pool@ == shuffle_prefix(orig, draws@, i as nat),
            pool@.len() == n,
            p.len() == n,
            forall|k: int| 0 <= k < n ==> 0 <= #[trigger] p[k] < n && pool@[k] == orig[p[k]],
            forall|a: int, b: int| 0 <= a < n && 0 <= b < n && a != b ==> p[a] != p[b],
        decreases offered - i,
    {
        let j: usize = draws[i];
        assert(i <= draws@[i as int] < n);
        let x = pool[i];
        let y = pool[j];
        pool.set(i, y);
        pool.set(j, x);
        proof {
            let q = p.update(i as int, p[j as int]).update(j as int, p[i as int]);
            assert forall|k: int| 0 <= k < n implies 0 <= #[trigger] q[k] < n && pool@[k] == orig[q[k]] by {
                if k == j as int {
                } else if k == i as int {
                } else {
                    assert(q[k] == p[k]);
                }
            }
            assert forall|a: int, b: int| 0 <= a < n && 0 <= b < n && a != b implies q[a] != q[b] by {
                let sa: int = if a == j as int { i as int } else if a == i as int { j as int } else { a };
                let sb: int = if b == j as int { i as int } else if b == i as int { j as int } else { b };
                assert(q[a] == p[sa]);
                assert(q[b] == p[sb]);
            }
            p = q;
        }
        i = i + 1;
    }
    pool.truncate(offered);
    proof {
        let w = p.take(offered as int);
        assert(w.len() == pool@.len());
        assert forall|k: int| 0 <= k < w.len() implies 0 <= #[trigger] w[k] < orig.len() && pool@[k] == orig[w[k]] by {
            assert(w[k] == p[k]);
        }
        assert(forall|a: int, b: int| 0 <= a < w.len() && 0 <= b < w.len() && a != b ==> w[a] != w[b]);
    }
    assert(pool@ =~= spec_offer(orig, draws@));
    pool
}

/// Surface up to three distinct options of `pool` by a partial Fisher-Yates
/// shuffle: step `i` swaps position `i` with a position drawn from `i..n`.
pub fn offer(pool: Vec<DraftOption>, rng: &mut ThreadRng) -> (picks: Vec<DraftOption>)
    ensures
        exists|draws: Seq<usize>| valid_draws(pool@.len(), draws) && picks@ == spec_offer(pool@, draws),
        picks@.len() == offer_count(pool@.len()),
        distinct_picks(picks@, pool@),
{
    let n: usize = pool.len();
    let offered: usize = if n < 3 {
        n
    } else {
        3
    };
    let mut draws: Vec<usize> = Vec::new();
    let mut i: usize = 0;
    while i < offered
        invariant
            n == pool@.len(),
            offered == offer_count(n as nat),
            offered <= n,
            i <= offered,
            draws@.len() == i,
            forall|k: int| 0 <= k < i ==> k <= #[trigger] draws@[k] < n,
        decreases offered - i,
    {
        let j: usize = random_index(rng, i, n);
        draws.push(j);
        i = i + 1;
    }
    offer_with(pool, &draws)
}

/// Build the pool for `inv` and offer three distinct picks from it.
pub fn open_draft(inv: &Inventory) -> (draft: Draft)
    requires
        inv.wf(),
    ensures
        exists|rolls: Seq<usize>, draws: Seq<usize>|
            valid_rolls(spec_pool_shape(inv@).len(), rolls) && valid_draws(
                spec_pool_shape(inv@).len(),
                draws,
            ) && draft.options@ == spec_offer(spec_pool(inv@, rolls), draws) && distinct_picks(
                draft.options@,
                spec_pool(inv@, rolls),
            ),
        draft.options@.len() == 3,
        forall|i: int| 0 <= i < draft.options@.len() ==> (#[trigger] draft.options@[i]).wf(),
{
    let mut rng = thread_rng();
    let pool = build_pool(inv, &mut rng);
    let ghost whole = pool@;
    proof {
        lemma_global_options_elems(GLOBAL_UPGRADE_COUNT as nat);
        assert(spec_pool_shape(inv@).len() >= GLOBAL_UPGRADE_COUNT);
    }
    let options = offer(pool, &mut rng);
    proof {
        let p = choose|p: Seq<int>|
            #![trigger p.len()]
            p.len() == options@.len() && (forall|i: int|
                0 <= i < p.len() ==> 0 <= #[trigger] p[i] < whole.len() && options@[i] == whole[p[i]])
                && (forall|i: int, j: int| 0 <= i < p.len() && 0 <= j < p.len() && i != j ==> p[i] != p[j]);
        assert forall|i: int| 0 <= i < options@.len() implies (#[trigger] options@[i]).wf() by {
            let k: int = p[i];
            law_pool_options(inv@, k);
        }
    }
    Draft { options }
}

/// Resolve the pick at `index`: an acquire option puts its item in the
/// backpack (when it can), a rank-up is handed back for the caller to apply.
/// An index past the options picks nothing.
pub fn pick_draft(draft: &Draft, index: usize, inv: &mut Inventory) -> (picked: Option<DraftOption>)
    requires
        old(inv).wf(),
    ensures
        final(inv).wf(),
        picked == (if index < draft.options@.len() {
            Some(draft.options@[index as int])
        } else {
            None
        }),
        final(inv)@ == (match picked {
            Some(DraftOption::Equip(item)) => spec_acquire(old(inv)@, item),
            _ => old(inv)@,
        }),
{
    if index >= draft.options.len() {
        return None;
    }
    let option = draft.options[index];
    if let DraftOption::Equip(item) = option {
        inv.acquire(item);
    }
    Some(option)
}

proof fn lemma_equip_options_elems(s: Slots, n: nat)
    requires
        n <= 10,
    ensures
        forall|i: int| 0 <= i < equip_options(s, n).len() ==> (#[trigger] equip_options(s, n)[i]
            matches DraftOption::Equip(id) && !held(s, id)),
    decreases n,
{
    if n > 0 {
        lemma_equip_options_elems(s, (n - 1) as nat);
    }
}

proof fn lemma_stat_options_elems(item: ItemId, n: nat)
    ensures
        forall|i: int| 0 <= i < stat_options(item, n).len() ==> (#[trigger] stat_options(item, n)[i]
            matches DraftOption::AbilityUp { item: it, stat, .. } && it == item && stat < n
            && spec_has_stat(spec_ability_stats(spec_item_ability(item)), stat as int)),
    decreases n,
{
    if n > 0 {
        lemma_stat_options_elems(item, (n - 1) as nat);
    }
}

proof fn lemma_rank_options_elems(equipped: Seq<ItemId>, n: nat)
    requires
        n <= equipped.len(),
    ensures
        forall|i: int| 0 <= i < rank_options(equipped, n).len() ==> (#[trigger] rank_options(equipped, n)[i]
            matches DraftOption::AbilityUp { item, stat, .. } && equipped.contains(item)
            && stat < ABILITY_STAT_COUNT
            && spec_has_stat(spec_ability_stats(spec_item_ability(item)), stat as int)),
    decreases n,
{
    if n > 0 {
        let m: nat = (n - 1) as nat;
        lemma_rank_options_elems(equipped, m);
        lemma_stat_options_elems(equipped[m as int], ABILITY_STAT_COUNT as nat);
        let prev = rank_options(equipped, m);
        let last = stat_options(equipped[m as int], ABILITY_STAT_COUNT as nat);
        assert forall|i: int| 0 <= i < rank_options(equipped, n).len() implies (#[trigger] rank_options(equipped, n)[i]
            matches DraftOption::AbilityUp { item, stat, .. } && equipped.contains(item)
            && stat < ABILITY_STAT_COUNT
            && spec_has_stat(spec_ability_stats(spec_item_ability(item)), stat as int)) by {
            if i < prev.len() {
                assert(rank_options(equipped, n)[i] == prev[i]);
            } else {
                assert(rank_options(equipped, n)[i] == last[i - prev.len()]);
                assert(equipped[m as int] == equipped[m as int]);
            }
        }
    }
}

proof fn lemma_global_options_elems(n: nat)
    ensures
        global_options(n).len() == n,
        forall|i: int| 0 <= i < global_options(n).len() ==> (#[trigger] global_options(n)[i]
            matches DraftOption::Global { kind, .. } && kind < n),
    decreases n,
{
    if n > 0 {
        lemma_global_options_elems((n - 1) as nat);
    }
}

proof fn lemma_somes_contains(s: Slots, id: ItemId)
    ensures
        somes(s).contains(id) ==> exists|i: int| 0 <= i < s.len() && s[i] == Some(id),
    decreases s.len(),
{
    if s.len() > 0 {
        let t = s.drop_last();
        lemma_somes_contains(t, id);
        if somes(s).contains(id) {
            let k = choose|k: int| 0 <= k < somes(s).len() && somes(s)[k] == id;
            if s.last() == Some(id) {
                assert(s[s.len() - 1] == Some(id));
            } else {
                if k < somes(t).len() {
                    assert(somes(t)[k] == id);
                    let i = choose|i: int| 0 <= i < t.len() && t[i] == Some(id);
                    assert(s[i] == Some(id));
                } else {
                    assert(s.last() == Some(id));
                }
            }
        }
    }
}

/// What the draft pool offers, option by option: an acquire option names an
/// item that is not held while the backpack has room, so picking it always
/// succeeds; a rank-up names an equipped item and a stat its ability exposes;
/// a global names one of the passive kinds. The pool always holds every global
/// kind, so a draft always shows three options.
pub proof fn law_pool_options(s: Slots, k: int)
    requires
        crate::ability::slots_wf(s),
        0 <= k < spec_pool_shape(s).len(),
    ensures
        spec_pool_shape(s).len() >= GLOBAL_UPGRADE_COUNT,
        match spec_pool_shape(s)[k] {
            DraftOption::Equip(id) => has_room(s) && !held(s, id)
                && crate::ability::spec_acquire_ok(s, id),
            DraftOption::AbilityUp { item, stat, .. } => crate::ability::held_equipped(s, item)
                && stat < ABILITY_STAT_COUNT
                && spec_has_stat(spec_ability_stats(spec_item_ability(item)), stat as int),
            DraftOption::Global { kind, .. } => kind < GLOBAL_UPGRADE_COUNT,
        },
{
    let equipped = somes(s.take(EQUIP_COUNT as int));
    let a = if has_room(s) { equip_options(s, 10) } else { Seq::empty() };
    let b = rank_options(equipped, equipped.len());
    let c = global_options(GLOBAL_UPGRADE_COUNT as nat);
    assert(spec_pool_shape(s) == a + b + c);
    lemma_equip_options_elems(s, 10);
    lemma_rank_options_elems(equipped, equipped.len());
    lemma_global_options_elems(GLOBAL_UPGRADE_COUNT as nat);
    crate::ability::law_room_iff_free_slot(s);
    if k < a.len() {
        assert(spec_pool_shape(s)[k] == a[k]);
    } else if k < a.len() + b.len() {
        assert(spec_pool_shape(s)[k] == b[k - a.len()]);
        if let DraftOption::AbilityUp { item, stat, .. } = b[k - a.len()] {
            lemma_somes_contains(s.take(EQUIP_COUNT as int), item);
            let i = choose|i: int| 0 <= i < s.take(EQUIP_COUNT as int).len() && s.take(EQUIP_COUNT as int)[i] == Some(item);
            assert(s[i] == Some(item));
        }
    } else {
        assert(spec_pool_shape(s)[k] == c[k - a.len() - b.len()]);
    }
}

/// `o` is a rank-up of `stat` of `item`'s ability, whatever its tier.
pub open spec fn ranks_up(o: DraftOption, item: ItemId, stat: usize) -> bool {
    match o {
        DraftOption::AbilityUp { item: it, stat: st, .. } => it == item && st == stat,
        _ => false,
    }
}

proof fn lemma_somes_has(s: Slots, i: int, id: ItemId)
    requires
        0 <= i < s.len(),
        s[i] == Some(id),
    ensures
        somes(s).contains(id),
    decreases s.len(),
{
    let t = s.drop_last();
    if i == s.len() - 1 {
        assert(somes(s) == somes(t).push(id));
        assert(somes(s)[somes(t).len() as int] == id);
    } else {
        assert(t[i] == Some(id));
        lemma_somes_has(t, i, id);
        let k = choose|k: int| 0 <= k < somes(t).len() && somes(t)[k] == id;
        match s.last() {
            Some(x) => {
                assert(somes(s) == somes(t).push(x));
                assert(somes(s)[k] == id);
            },
            None => {},
        }
    }
}

proof fn lemma_somes_distinct(s: Slots)
    requires
        crate::ability::no_repeats(s),
    ensures
        somes(s).no_duplicates(),
    decreases s.len(),
{
    if s.len() > 0 {
        let t = s.drop_last();
        assert(crate::ability::no_repeats(t)) by {
            assert forall|i: int, j: int|
                0 <= i < t.len() && 0 <= j < t.len() && i != j && t[i] is Some implies #[trigger] t[i] != #[trigger] t[j] by {
                assert(t[i] == s[i] && t[j] == s[j]);
            }
        }
        lemma_somes_distinct(t);
        if let Some(x) = s.last() {
            lemma_somes_contains(t, x);
            if somes(t).contains(x) {
                let i = choose|i: int| 0 <= i < t.len() && t[i] == Some(x);
                assert(s[i] == s[s.len() - 1]);
            }
            let v = somes(s);
            assert(v == somes(t).push(x));
            assert forall|a: int, b: int| 0 <= a < v.len() && 0 <= b < v.len() && a != b implies v[a] != v[b] by {
                if a < somes(t).len() && b < somes(t).len() {
                } else if a < somes(t).len() {
                    assert(somes(t)[a] == v[a]);
                } else {
                    assert(somes(t)[b] == v[b]);
                }
            }
        }
    }
}

proof fn lemma_stat_options_has(item: ItemId, n: nat, stat: usize)
    requires
        stat < n,
        spec_has_stat(spec_ability_stats(spec_item_ability(item)), stat as int),
    ensures
        stat_options(item, n).contains(DraftOption::AbilityUp { item, stat, tier: Tier::Common }),
    decreases n,
{
    let o = DraftOption::AbilityUp { item, stat, tier: Tier::Common };
    let m: nat = (n - 1) as nat;
    let prev = stat_options(item, m);
    if stat == m {
        assert(stat_options(item, n) == prev.push(o));
        assert(stat_options(item, n)[prev.len() as int] == o);
    } else {
        lemma_stat_options_has(item, m, stat);
        let k = choose|k: int| 0 <= k < prev.len() && prev[k] == o;
        assert(stat_options(item, n)[k] == o);
    }
}

/// The rank-ups of one item come in strictly increasing stat order.
proof fn lemma_stat_options_increasing(item: ItemId, n: nat)
    ensures
        forall|i: int, j: int|
            0 <= i < j < stat_options(item, n).len() ==> (#[trigger] stat_options(item, n)[i])->stat
                < (#[trigger] stat_options(item, n)[j])->stat,
    decreases n,
{
    lemma_stat_options_elems(item, n);
    if n > 0 {
        let m: nat = (n - 1) as nat;
        lemma_stat_options_increasing(item, m);
        lemma_stat_options_elems(item, m);
        let prev = stat_options(item, m);
        let cur = stat_options(item, n);
        assert forall|i: int, j: int| 0 <= i < j < cur.len() implies (#[trigger] cur[i])->stat < (#[trigger] cur[j])->stat by {
            assert(cur[i] == prev[i]);
            if j < prev.len() {
                assert(cur[j] == prev[j]);
            } else {
                assert(prev[i]->stat < m);
            }
        }
    }
}

proof fn lemma_rank_options_has(equipped: Seq<ItemId>, n: nat, j: int, stat: usize)
    requires
        0 <= j < n <= equipped.len(),
        stat < ABILITY_STAT_COUNT,
        spec_has_stat(spec_ability_stats(spec_item_ability(equipped[j])), stat as int),
    ensures
        rank_options(equipped, n).contains(
            DraftOption::AbilityUp { item: equipped[j], stat, tier: Tier::Common },
        ),
    decreases n,
{
    let o = DraftOption::AbilityUp { item: equipped[j], stat, tier: Tier::Common };
    let m: nat = (n - 1) as nat;
    let prev = rank_options(equipped, m);
    let last = stat_options(equipped[m as int], ABILITY_STAT_COUNT as nat);
    assert(rank_options(equipped, n) == prev + last);
    if j == m {
        lemma_stat_options_has(equipped[j], ABILITY_STAT_COUNT as nat, stat);
        let k = choose|k: int| 0 <= k < last.len() && last[k] == o;
        assert((prev + last)[prev.len() + k] == o);
    } else {
        lemma_rank_options_has(equipped, m, j, stat);
        let k = choose|k: int| 0 <= k < prev.len() && prev[k] == o;
        assert((prev + last)[k] == o);
    }
}

/// Each rank-up of the first `n` items names one of them, and no item and stat
/// pair occurs twice.
proof fn lemma_rank_options_once(equipped: Seq<ItemId>, n: nat)
    requires
        n <= equipped.len(),
        equipped.no_duplicates(),
    ensures
        forall|i: int|
            0 <= i < rank_options(equipped, n).len() ==> exists|j: int|
                0 <= j < n && (#[trigger] rank_options(equipped, n)[i])->item == equipped[j],
        forall|i: int, k: int|
            0 <= i < k < rank_options(equipped, n).len() ==> !((#[trigger] rank_options(equipped, n)[i])->item
                == (#[trigger] rank_options(equipped, n)[k])->item && rank_options(equipped, n)[i]->stat
                == rank_options(equipped, n)[k]->stat),
    decreases n,
{
    if n > 0 {
        let m: nat = (n - 1) as nat;
        lemma_rank_options_once(equipped, m);
        let prev = rank_options(equipped, m);
        let last = stat_options(equipped[m as int], ABILITY_STAT_COUNT as nat);
        let cur = rank_options(equipped, n);
        assert(cur == prev + last);
        lemma_stat_options_elems(equipped[m as int], ABILITY_STAT_COUNT as nat);
        lemma_stat_options_increasing(equipped[m as int], ABILITY_STAT_COUNT as nat);
        assert forall|i: int| 0 <= i < cur.len() implies exists|j: int|
            0 <= j < n && (#[trigger] cur[i])->item == equipped[j] by {
            if i < prev.len() {
                assert(cur[i] == prev[i]);
                let j = choose|j: int| 0 <= j < m && prev[i]->item == equipped[j];
                assert(0 <= j < n && cur[i]->item == equipped[j]);
            } else {
                assert(cur[i] == last[i - prev.len()]);
                assert(cur[i]->item == equipped[m as int]);
            }
        }
        assert forall|i: int, k: int| 0 <= i < k < cur.len() implies !((#[trigger] cur[i])->item
            == (#[trigger] cur[k])->item && cur[i]->stat == cur[k]->stat) by {
            if k < prev.len() {
                assert(cur[i] == prev[i] && cur[k] == prev[k]);
            } else if i < prev.len() {
                assert(cur[i] == prev[i]);
                assert(cur[k] == last[k - prev.len()]);
                let j = choose|j: int| 0 <= j < m && prev[i]->item == equipped[j];
                assert(equipped[j] != equipped[m as int]);
            } else {
                assert(cur[i] == last[i - prev.len()]);
                assert(cur[k] == last[k - prev.len()]);
            }
        }
    }
}

/// The draft pool ranks up everything equipped: for every item in an equipment
/// slot and every stat its ability exposes, the pool (whatever its tier rolls)
/// holds a rank-up of that stat of that item.
pub proof fn law_pool_ranks_every_equipped_stat(s: Slots, rolls: Seq<usize>, slot: int, item: ItemId, stat: usize)
    requires
        crate::ability::slots_wf(s),
        0 <= slot < EQUIP_COUNT,
        s[slot] == Some(item),
        stat < ABILITY_STAT_COUNT,
        spec_has_stat(spec_ability_stats(spec_item_ability(item)), stat as int),
    ensures
        exists|k: int| 0 <= k < spec_pool(s, rolls).len() && ranks_up(#[trigger] spec_pool(s, rolls)[k], item, stat),
{
    let eq_slots = s.take(EQUIP_COUNT as int);
    let equipped = somes(eq_slots);
    assert(eq_slots[slot] == Some(item));
    lemma_somes_has(eq_slots, slot, item);
    let j = choose|j: int| 0 <= j < equipped.len() && equipped[j] == item;
    lemma_rank_options_has(equipped, equipped.len(), j, stat);
    let a = if has_room(s) { equip_options(s, 10) } else { Seq::empty() };
    let b = rank_options(equipped, equipped.len());
    let c = global_options(GLOBAL_UPGRADE_COUNT as nat);
    let shape = spec_pool_shape(s);
    assert(shape == a + b + c);
    let o = DraftOption::AbilityUp { item, stat, tier: Tier::Common };
    let kb = choose|kb: int| 0 <= kb < b.len() && b[kb] == o;
    let k = a.len() + kb;
    assert(shape[k] == o);
    assert(ranks_up(spec_pool(s, rolls)[k], item, stat));
}

/// No rank-up is offered twice: two positions of the draft pool never rank up
/// the same stat of the same item.
pub proof fn law_pool_ranks_once(s: Slots, rolls: Seq<usize>, i: int, k: int, item: ItemId, stat: usize)
    requires
        crate::ability::slots_wf(s),
        0 <= i < k < spec_pool(s, rolls).len(),
    ensures
        !(ranks_up(spec_pool(s, rolls)[i], item, stat) && ranks_up(spec_pool(s, rolls)[k], item, stat)),
{
    let eq_slots = s.take(EQUIP_COUNT as int);
    let equipped = somes(eq_slots);
    assert(crate::ability::no_repeats(eq_slots)) by {
        assert forall|x: int, y: int|
            0 <= x < eq_slots.len() && 0 <= y < eq_slots.len() && x != y && eq_slots[x] is Some implies #[trigger] eq_slots[x] != #[trigger] eq_slots[y] by {
            assert(eq_slots[x] == s[x] && eq_slots[y] == s[y]);
        }
    }
    lemma_somes_distinct(eq_slots);
    lemma_rank_options_once(equipped, equipped.len());
    lemma_equip_options_elems(s, 10);
    lemma_global_options_elems(GLOBAL_UPGRADE_COUNT as nat);
    let a = if has_room(s) { equip_options(s, 10) } else { Seq::empty() };
    let b = rank_options(equipped, equipped.len());
    let c = global_options(GLOBAL_UPGRADE_COUNT as nat);
    let shape = spec_pool_shape(s);
    assert(shape == a + b + c);
    let pool = spec_pool(s, rolls);
    if ranks_up(pool[i], item, stat) && ranks_up(pool[k], item, stat) {
        assert(ranks_up(shape[i], item, stat));
        assert(ranks_up(shape[k], item, stat));
        if i < a.len() {
            assert(shape[i] == a[i]);
        } else if k >= a.len() + b.len() {
            assert(shape[k] == c[k - a.len() - b.len()]);
        } else if i >= a.len() + b.len() {
            assert(shape[i] == c[i - a.len() - b.len()]);
        } else if k < a.len() {
        } else {
            assert(shape[i] == b[i - a.len()]);
            assert(shape[k] == b[k - a.len()]);
            assert(b[i - a.len()]->item == b[k - a.len()]->item);
        }
    }
}

// ---------------------------------------------------------------------------
// Labels and upgrade expressions
// ---------------------------------------------------------------------------

/// `+N%`, `−N%` or `+N` for an operation and a tier percentage.
pub open spec fn spec_magnitude(op: Op, pct: u32) -> Seq<char> {
    match op {
        Op::AddPct => "+"@ + decimal(pct as nat) + "%"@,
        Op::SubPct => "\u{2212}"@ + decimal(pct as nat) + "%"@,
        Op::AddFlat(amount) => "+"@ + decimal(amount as nat),
    }
}

/// Format the magnitude of an upgrade: a percentage for the percentage
/// operations, the flat amount otherwise.
pub fn magnitude_label(op: Op, pct: u32) -> (s: String)
    ensures
        s@ == spec_magnitude(op, pct),
{
    let mut s = String::new();
    match op {
        Op::AddPct => {
            s.append("+");
            push_decimal(&mut s, pct);
            s.append("%");
        },
        Op::SubPct => {
            s.append("\u{2212}");
            push_decimal(&mut s, pct);
            s.append("%");
        },
        Op::AddFlat(amount) => {
            s.append("+");
            push_decimal(&mut s, amount);
        },
    }
    assert(s@ =~= spec_magnitude(op, pct));
    s
}

/// The text of an option on the level-up screen.
pub open spec fn spec_option_label(o: DraftOption) -> Seq<char> {
    match o {
        DraftOption::Equip(item) => spec_item_name(item) + " \u{2014} New"@,
        DraftOption::AbilityUp { item, stat, tier } => {
            let (label, _, op) = spec_ability_stat(stat as int);
            spec_ability_name(spec_item_ability(item)) + " \u{2014} "@ + spec_tier_label(tier) + " "@
                + spec_magnitude(op, spec_tier_pct(tier) as u32) + " "@ + label
        },
        DraftOption::Global { kind, tier } => {
            let (label, _, op) = spec_global_upgrade(kind as int);
            label + " "@ + spec_magnitude(op, spec_tier_pct(tier) as u32) + " \u{2014} "@
                + spec_tier_label(tier) + " (global)"@
        },
    }
}

impl DraftOption {
    /// Rank-ups name an existing stat or passive kind.
    pub open spec fn wf(&self) -> bool {
        match *self {
            DraftOption::Equip(_) => true,
            DraftOption::AbilityUp { stat, .. } => stat < ABILITY_STAT_COUNT,
            DraftOption::Global { kind, .. } => kind < GLOBAL_UPGRADE_COUNT,
        }
    }

    /// The option's text: `Name — New` for an item, `Ability — Tier +N% Stat`
    /// for a rank-up, `Passive +N% — Tier (global)` for a global.
    pub fn label(&self) -> (s: String)
        requires
            self.wf(),
        ensures
            s@ == spec_option_label(*self),
    {
        let mut s = String::new();
        match *self {
            DraftOption::Equip(item) => {
                s.append(item.def().name);
                s.append(" \u{2014} New");
            },
            DraftOption::AbilityUp { item, stat, tier } => {
                let a = ability_stat(stat);
                s.append(item.def().ability.def().name);
                s.append(" \u{2014} ");
                s.append(tier.label());
                s.append(" ");
                let m = magnitude_label(a.op, tier.pct());
                s.append(m.as_str());
                s.append(" ");
                s.append(a.label);
            },
            DraftOption::Global { kind, tier } => {
                let g = global_upgrade(kind);
                s.append(g.label);
                s.append(" ");
                let m = magnitude_label(g.op, tier.pct());
                s.append(m.as_str());
                s.append(" \u{2014} ");
                s.append(tier.label());
                s.append(" (global)");
            },
        }
        assert(s@ =~= spec_option_label(*self));
        s
    }
}

/// A whole percentage written as a decimal number of hundredths, the way the
/// fraction `pct / 100` prints: `0.35`, `0.1`, `1.5`, `2`.
pub open spec fn spec_fraction(pct: nat) -> Seq<char> {
    let whole = decimal(pct / 100);
    let rem = pct % 100;
    if rem == 0 {
        whole
    } else if rem % 10 == 0 {
        whole + "."@.push(digit_char(rem / 10))
    } else {
        whole + "."@.push(digit_char(rem / 10)).push(digit_char(rem % 10))
    }
}

/// The expression an upgrade instant applies to `stat`: `stat * fraction`,
/// the fraction being the tier percentage of the stat's own current value.
pub fn instant_expression(stat: &str, pct: u32) -> (s: String)
    ensures
        s@ == stat@ + " * "@ + spec_fraction(pct as nat),
{
    let mut s = String::new();
    s.append(stat);
    s.append(" * ");
    push_decimal(&mut s, pct / 100);
    let rem: u32 = pct % 100;
    if rem != 0 {
        s.append(".");
        push_decimal(&mut s, rem / 10);
        if rem % 10 != 0 {
            push_decimal(&mut s, rem % 10);
        }
    }
    proof {
        reveal_strlit(".");
    }
    assert(s@ =~= stat@ + " * "@ + spec_fraction(pct as nat));
    s
}

/// Rarer tiers are rolled less often and grant a bigger percentage.
pub proof fn law_rarer_tiers_are_stronger()
    ensures
        spec_tier_weight(Tier::Common) > spec_tier_weight(Tier::Rare) > spec_tier_weight(
            Tier::Legendary,
        ),
        spec_tier_pct(Tier::Common) < spec_tier_pct(Tier::Rare) < spec_tier_pct(Tier::Legendary),
{
}

} // verus!
