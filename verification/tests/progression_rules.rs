use diesel_survivors::ability::Inventory;
use diesel_survivors::data::abilities::AbilityId;
use diesel_survivors::data::items::ItemId;
use diesel_survivors::progression::{
    ability_has_stat, ability_stat, build_pool, build_pool_with, global_upgrade, offer, offer_with,
    open_draft, pick_draft,
    roll_tier, tier_for_roll, Draft, DraftOption, Experience, Op, Tier, ABILITY_STAT_COUNT,
    GLOBAL_UPGRADE_COUNT, TIER_TOTAL,
};

#[test]
fn experience_starts_at_level_one() {
    let xp = Experience::default();
    assert_eq!((xp.current, xp.level, xp.to_next), (0, 1, 3));
}

#[test]
fn level_up_consumes_threshold() {
    let mut xp = Experience::new();
    xp.gain(2);
    assert!(!xp.check_level_up());
    assert_eq!((xp.current, xp.level, xp.to_next), (2, 1, 3));
    xp.gain(2);
    assert!(xp.check_level_up());
    assert_eq!((xp.current, xp.level, xp.to_next), (1, 2, 5));
    xp.gain(4);
    assert!(xp.check_level_up());
    assert_eq!((xp.current, xp.level, xp.to_next), (0, 3, 7));
}

#[test]
fn one_level_per_check() {
    let mut xp = Experience::new();
    xp.gain(100);
    assert!(xp.check_level_up());
    assert_eq!((xp.current, xp.level, xp.to_next), (97, 2, 5));
}

#[test]
fn reaching_level_four_costs_fifteen_xp() {
    // 3 + 5 + 7 = 4 * 4 - 1.
    let mut xp = Experience::new();
    xp.gain(15);
    while xp.check_level_up() {}
    assert_eq!((xp.current, xp.level), (0, 4));
}

#[test]
fn tier_roll_boundaries() {
    assert_eq!(tier_for_roll(0), Tier::Common);
    assert_eq!(tier_for_roll(59), Tier::Common);
    assert_eq!(tier_for_roll(60), Tier::Rare);
    assert_eq!(tier_for_roll(89), Tier::Rare);
    assert_eq!(tier_for_roll(90), Tier::Legendary);
    assert_eq!(tier_for_roll(99), Tier::Legendary);
}

#[test]
fn tier_odds_match_weights() {
    let mut counts = [0u32; 3];
    for r in 0..TIER_TOTAL {
        match tier_for_roll(r) {
            Tier::Common => counts[0] += 1,
            Tier::Rare => counts[1] += 1,
            Tier::Legendary => counts[2] += 1,
        }
    }
    assert_eq!(counts, [Tier::Common.weight(), Tier::Rare.weight(), Tier::Legendary.weight()]);
    assert_eq!(counts.iter().sum::<u32>() as usize, TIER_TOTAL);
}

#[test]
fn tier_magnitudes() {
    assert_eq!((Tier::Common.pct(), Tier::Rare.pct(), Tier::Legendary.pct()), (10, 20, 35));
    assert_eq!(Tier::Legendary.label(), "Legendary");
}

#[test]
fn rolled_tiers_cover_the_table() {
    let mut rng = rand::rng();
    let mut seen = [false; 3];
    for _ in 0..2000 {
        match roll_tier(&mut rng) {
            Tier::Common => seen[0] = true,
            Tier::Rare => seen[1] = true,
            Tier::Legendary => seen[2] = true,
        }
    }
    assert_eq!(seen, [true, true, true]);
}

#[test]
fn rankable_stats_follow_the_ability() {
    let blade = AbilityId::OrbitingBlade.def();
    assert!(ability_has_stat(&blade, 0));
    assert!(!ability_has_stat(&blade, 1));
    assert!(!ability_has_stat(&blade, 2));
    assert!(!ability_has_stat(&blade, 3));
    let fireball = AbilityId::Fireball.def();
    for idx in 0..ABILITY_STAT_COUNT {
        assert!(ability_has_stat(&fireball, idx));
    }
    assert!(!ability_has_stat(&fireball, 4));
    assert_eq!(ability_stat(1).stat, "CooldownBase");
    assert_eq!(ability_stat(1).op, Op::SubPct);
    assert_eq!(global_upgrade(5).op, Op::AddFlat(1));
    assert_eq!(global_upgrade(8).stat, "PickupRadius");
}

#[test]
fn pool_for_starter_inventory() {
    let inv = Inventory::with_starter(ItemId::ApprenticeStaff);
    let mut rng = rand::rng();
    let pool = build_pool(&inv, &mut rng);
    // Nine unheld items, three rankable stats of Magic Missile, nine globals.
    assert_eq!(pool.len(), 9 + 3 + GLOBAL_UPGRADE_COUNT);
    assert_eq!(pool[0], DraftOption::Equip(ItemId::EmberwoodStaff));
    assert_eq!(pool[8], DraftOption::Equip(ItemId::HuntingBow));
    let stats: Vec<usize> = pool[9..12]
        .iter()
        .map(|o| match o {
            DraftOption::AbilityUp { item, stat, .. } => {
                assert_eq!(*item, ItemId::ApprenticeStaff);
                *stat
            }
            _ => panic!("expected a rank-up"),
        })
        .collect();
    assert_eq!(stats, vec![0, 1, 3]);
    for (k, o) in pool[12..].iter().enumerate() {
        assert!(matches!(o, DraftOption::Global { kind, .. } if *kind == k));
    }
}

#[test]
fn pool_without_backpack_room_offers_no_items() {
    let mut inv = Inventory::with_starter(ItemId::WhirlingBlade);
    for item in [
        ItemId::EmberwoodStaff,
        ItemId::FrostpineStaff,
        ItemId::PyreStaff,
        ItemId::ApprenticeStaff,
        ItemId::GlacierStaff,
        ItemId::CinderStaff,
    ] {
        assert!(inv.acquire(item));
    }
    let mut rng = rand::rng();
    let pool = build_pool(&inv, &mut rng);
    // The blade only ranks up Damage.
    assert_eq!(pool.len(), 1 + GLOBAL_UPGRADE_COUNT);
    assert!(matches!(pool[0], DraftOption::AbilityUp { item: ItemId::WhirlingBlade, stat: 0, .. }));
}

#[test]
fn offer_picks_distinct_options() {
    let pool: Vec<DraftOption> = (0..GLOBAL_UPGRADE_COUNT)
        .map(|kind| DraftOption::Global { kind, tier: Tier::Common })
        .collect();
    let mut rng = rand::rng();
    for _ in 0..50 {
        let picks = offer(pool.clone(), &mut rng);
        assert_eq!(picks.len(), 3);
        assert_ne!(picks[0], picks[1]);
        assert_ne!(picks[0], picks[2]);
        assert_ne!(picks[1], picks[2]);
        assert!(picks.iter().all(|p| pool.contains(p)));
    }
    let short = vec![DraftOption::Equip(ItemId::IronSword), DraftOption::Equip(ItemId::HuntingBow)];
    let picks = offer(short.clone(), &mut rng);
    assert_eq!(picks.len(), 2);
    assert!(picks.contains(&short[0]) && picks.contains(&short[1]));
    assert!(offer(Vec::new(), &mut rng).is_empty());
}

#[test]
fn open_draft_always_offers_three() {
    let inv = Inventory::with_starter(ItemId::IronSword);
    for _ in 0..20 {
        let draft = open_draft(&inv);
        assert_eq!(draft.options.len(), 3);
        for o in &draft.options {
            if let DraftOption::Equip(item) = o {
                assert!(!inv.contains(*item));
            }
        }
    }
}

#[test]
fn picking_an_item_acquires_it() {
    let mut inv = Inventory::with_starter(ItemId::ApprenticeStaff);
    let draft = Draft {
        options: vec![
            DraftOption::Equip(ItemId::IronSword),
            DraftOption::AbilityUp { item: ItemId::ApprenticeStaff, stat: 0, tier: Tier::Rare },
            DraftOption::Global { kind: 2, tier: Tier::Legendary },
        ],
    };
    assert_eq!(pick_draft(&draft, 0, &mut inv), Some(DraftOption::Equip(ItemId::IronSword)));
    assert_eq!(inv.get(3), Some(ItemId::IronSword));
    assert_eq!(
        pick_draft(&draft, 1, &mut inv),
        Some(DraftOption::AbilityUp { item: ItemId::ApprenticeStaff, stat: 0, tier: Tier::Rare })
    );
    assert_eq!(pick_draft(&draft, 2, &mut inv), Some(DraftOption::Global { kind: 2, tier: Tier::Legendary }));
    assert_eq!(pick_draft(&draft, 3, &mut inv), None);
    assert_eq!(inv.get(4), None);
    assert!(Draft::default().options.is_empty());
}

#[test]
fn offer_with_draws_swaps_then_takes_three() {
    let pool: Vec<DraftOption> = (0..5).map(|kind| DraftOption::Global { kind, tier: Tier::Common }).collect();
    // Step 0 swaps 0 and 3, step 1 keeps 1, step 2 swaps 2 and 4.
    let picks = offer_with(pool.clone(), &vec![3, 1, 4]);
    let kinds: Vec<usize> = picks
        .iter()
        .map(|o| match o {
            DraftOption::Global { kind, .. } => *kind,
            _ => panic!("expected a global"),
        })
        .collect();
    assert_eq!(kinds, vec![3, 1, 4]);
    // Draws that never move anything offer the first three entries.
    assert_eq!(offer_with(pool.clone(), &vec![0, 1, 2]), pool[..3].to_vec());
    // A later step can move an earlier pick's partner: 0<->1, then 1<->2.
    let picks = offer_with(pool.clone(), &vec![1, 2, 2]);
    assert_eq!(picks, vec![pool[1], pool[2], pool[0]]);
    // A short pool is offered whole, shuffled by its draws.
    let short = vec![DraftOption::Equip(ItemId::IronSword), DraftOption::Equip(ItemId::HuntingBow)];
    assert_eq!(offer_with(short.clone(), &vec![1, 1]), vec![short[1], short[0]]);
}

#[test]
fn pool_with_rolls_sets_each_tier() {
    let inv = Inventory::with_starter(ItemId::ApprenticeStaff);
    // Positions 0..9 are items (no tier), 9..12 rank-ups, 12..21 globals.
    let mut rolls = vec![0usize; 9 + 3 + GLOBAL_UPGRADE_COUNT];
    rolls[9] = 59;
    rolls[10] = 60;
    rolls[11] = 99;
    rolls[12] = 90;
    rolls[13] = 89;
    let pool = build_pool_with(&inv, &rolls);
    assert_eq!(pool[0], DraftOption::Equip(ItemId::EmberwoodStaff));
    assert_eq!(pool[9], DraftOption::AbilityUp { item: ItemId::ApprenticeStaff, stat: 0, tier: Tier::Common });
    assert_eq!(pool[10], DraftOption::AbilityUp { item: ItemId::ApprenticeStaff, stat: 1, tier: Tier::Rare });
    assert_eq!(pool[11], DraftOption::AbilityUp { item: ItemId::ApprenticeStaff, stat: 3, tier: Tier::Legendary });
    assert_eq!(pool[12], DraftOption::Global { kind: 0, tier: Tier::Legendary });
    assert_eq!(pool[13], DraftOption::Global { kind: 1, tier: Tier::Rare });
    assert_eq!(pool[14], DraftOption::Global { kind: 2, tier: Tier::Common });
}

#[test]
fn no_level_up_at_the_limit_leaves_xp_unchanged() {
    let mut xp = Experience { current: 5, level: u32::MAX / 2, to_next: u32::MAX };
    assert!(!xp.check_level_up());
    assert_eq!((xp.current, xp.level, xp.to_next), (5, u32::MAX / 2, u32::MAX));
}
