use diesel_survivors::data::abilities::{self, AbilityId};
use diesel_survivors::data::characters::{self, CharacterId, SelectedCharacter, StatProfile};
use diesel_survivors::data::items::{self, ItemId, WeaponType};
use diesel_survivors::enemy::{spawn_allowed, MAX_ENEMIES};
use diesel_survivors::layers::{Layer, Team, TeamFilter};
use diesel_survivors::menu::{begin_run, character_for_key, main_menu_next, restart_next, upgrades_keys};
use diesel_survivors::meta::{try_buy, MetaProgress, Upgrade};
use diesel_survivors::pickups::{
    decide_drop, roll_drop, DropKind, DROP_CHANCE_DEN, DROP_CHANCE_NUM, HEAL_SHARE_DEN, HEAL_SHARE_NUM,
    RAGE_SHARE_DEN, RAGE_SHARE_NUM,
};
use diesel_survivors::states::{AppState, PlayingState};

fn meta(souls: u32) -> MetaProgress {
    MetaProgress { souls, ..MetaProgress::default() }
}

#[test]
fn upgrade_costs_escalate() {
    let mut m = meta(100);
    assert_eq!(Upgrade::Vitality.cost(&m), 10);
    assert!(Upgrade::Vitality.buy(&mut m));
    assert_eq!((m.souls, m.vitality_ranks), (90, 1));
    assert_eq!(Upgrade::Vitality.cost(&m), 20);
    assert!(Upgrade::Vitality.buy(&mut m));
    assert_eq!((m.souls, m.vitality_ranks), (70, 2));
    assert_eq!(Upgrade::Damage.cost(&m), 10);
    assert_eq!(Upgrade::Vitality.ranks(&m), 2);
}

#[test]
fn unaffordable_upgrade_changes_nothing() {
    let mut m = meta(19);
    m.move_speed_ranks = 1;
    let before = m;
    assert!(!Upgrade::MoveSpeed.buy(&mut m));
    assert_eq!(m, before);
    m.souls = 20;
    assert!(Upgrade::MoveSpeed.buy(&mut m));
    assert_eq!((m.souls, m.move_speed_ranks), (0, 2));
}

#[test]
fn try_buy_by_menu_index() {
    let mut m = meta(10);
    assert!(try_buy(&mut m, 1));
    assert_eq!((m.souls, m.damage_ranks), (0, 1));
    assert!(!try_buy(&mut m, 2));
    assert_eq!(Upgrade::at(2), Upgrade::MoveSpeed);
    assert_eq!(Upgrade::MoveSpeed.name(), "Move Speed");
}

#[test]
fn souls_bank_one_per_kill() {
    let mut m = MetaProgress::new();
    m.earn_soul();
    m.earn_soul();
    assert_eq!(m.souls, 2);
}

#[test]
fn rank_bonuses_skip_unbought() {
    let m = MetaProgress { souls: 0, vitality_ranks: 3, damage_ranks: 0, move_speed_ranks: 2 };
    let b = m.rank_bonuses();
    assert_eq!(b.len(), 2);
    assert_eq!((b[0].attribute, b[0].tenths), ("Vitality", 60));
    assert_eq!((b[1].attribute, b[1].tenths), ("MoveSpeed", 6));
    assert!(MetaProgress::default().rank_bonuses().is_empty());
}

#[test]
fn upgrade_screen_keys() {
    let mut m = meta(30);
    assert_eq!(upgrades_keys(&mut m, true, &[true, true, true]), (Some(AppState::MainMenu), false));
    assert_eq!(m, meta(30));
    assert_eq!(upgrades_keys(&mut m, false, &[true, false, true]), (None, true));
    assert_eq!((m.souls, m.vitality_ranks, m.move_speed_ranks), (10, 1, 1));
    assert_eq!(upgrades_keys(&mut m, false, &[true, false, false]), (None, false));
    assert_eq!(m.souls, 10);
}

#[test]
fn menu_flow() {
    assert_eq!(main_menu_next(true, true), Some(AppState::CharSelect));
    assert_eq!(main_menu_next(false, true), Some(AppState::Upgrades));
    assert_eq!(main_menu_next(false, false), None);
    assert_eq!(restart_next(true), Some(AppState::Playing));
    assert_eq!(restart_next(false), None);
    assert_eq!(AppState::default(), AppState::MainMenu);
    assert_eq!(PlayingState::default(), PlayingState::Running);
    let c = character_for_key(3).unwrap();
    assert_eq!(c.name, "Fireball");
    assert_eq!(c.starter, ItemId::PyreStaff);
    assert!(character_for_key(8).is_none());
    let (sel, next) = begin_run(c);
    assert_eq!(sel.0.name, "Fireball");
    assert_eq!(next, AppState::Playing);
}

#[test]
fn team_filter() {
    let f = TeamFilter::default();
    assert!(f.can_target(Some(Team::player()), Some(Team::enemies())));
    assert!(f.can_target(Some(Team::enemies()), Some(Team::player())));
    assert!(!f.can_target(Some(Team::enemies()), Some(Team(1))));
    assert!(f.can_target(None, Some(Team::player())));
    assert!(f.can_target(Some(Team::player()), None));
    assert_eq!(Team::default(), Team::player());
    assert_eq!(Layer::default(), Layer::Terrain);
}

#[test]
fn drop_table_decisions() {
    assert_eq!(decide_drop(false, true, true), None);
    assert_eq!(decide_drop(true, true, false), Some(DropKind::Heal));
    assert_eq!(decide_drop(true, false, true), Some(DropKind::Rage));
    assert_eq!(decide_drop(true, false, false), Some(DropKind::Haste));
    let mut rng = rand::rng();
    let mut seen = [false; 4];
    for _ in 0..5000 {
        match roll_drop(&mut rng) {
            None => seen[0] = true,
            Some(DropKind::Heal) => seen[1] = true,
            Some(DropKind::Rage) => seen[2] = true,
            Some(DropKind::Haste) => seen[3] = true,
        }
    }
    assert_eq!(seen, [true; 4]);
    assert_eq!((DROP_CHANCE_NUM * 100) / DROP_CHANCE_DEN, 30);
    assert_eq!((HEAL_SHARE_NUM * 100) / HEAL_SHARE_DEN, 55);
    assert_eq!((RAGE_SHARE_NUM * 100) / RAGE_SHARE_DEN, 50);
}

#[test]
fn enemy_cap() {
    assert!(spawn_allowed(true, 0));
    assert!(spawn_allowed(true, MAX_ENEMIES - 1));
    assert!(!spawn_allowed(true, MAX_ENEMIES));
    assert!(!spawn_allowed(false, 0));
}

#[test]
fn item_catalog() {
    let all = items::all();
    assert_eq!(all.len(), 10);
    assert_eq!(all[0], ItemId::ApprenticeStaff);
    assert_eq!(all[9], ItemId::HuntingBow);
    let sword = ItemId::IronSword.def();
    assert_eq!(sword.name, "Iron Sword");
    assert_eq!(sword.weapon, WeaponType::Sword);
    assert_eq!(sword.ability, AbilityId::Slice);
    assert_eq!(sword.weapon.label(), "Sword");
    assert_eq!(WeaponType::Staff.label(), "Staff");
    assert_eq!(WeaponType::Bow.label(), "Bow");
    let stats = ItemId::HuntingBow.def().stats();
    assert!(stats.cooldown && !stats.area && stats.projectile_speed);
    assert!(sword.same(&ItemId::IronSword.def()));
    assert!(!sword.same(&ItemId::HuntingBow.def()));
}

#[test]
fn ability_catalog() {
    let all = abilities::all();
    assert_eq!(all.len(), 7);
    assert_eq!(all[6], AbilityId::Firestorm);
    let d = AbilityId::IceStorm.def();
    assert_eq!(d.name, "Ice Storm");
    assert!(d.stats.area && !d.stats.projectile_speed);
    assert!(d.same(&AbilityId::IceStorm.def()));
    assert!(!d.same(&AbilityId::Firestorm.def()));
}

#[test]
fn character_roster() {
    let roster = characters::all();
    assert_eq!(roster.len(), 8);
    assert_eq!(roster[0].name, "Magic Missile");
    assert_eq!(roster[4].starter, ItemId::WhirlingBlade);
    assert_eq!(roster[7].name, "Arcane Storm");
    assert!(roster.iter().all(|c| c.stats == StatProfile::Test));
    assert_eq!(SelectedCharacter::default().0.name, "Magic Missile");
    assert_eq!(characters::sentinel().stats, StatProfile::Sentinel);
    assert_eq!(characters::arcanist().starter, ItemId::ApprenticeStaff);
    let s = CharacterId::Sentinel.def();
    assert_eq!((s.name, s.vitality, s.move_speed), ("Sentinel", 12, 4));
    let a = CharacterId::Arcanist.def();
    assert_eq!((a.vitality, a.move_speed), (4, 6));
    assert_eq!(CharacterId::Sentinel.starter_ability(), AbilityId::Firebolt);
    assert_eq!(CharacterId::Arcanist.starter_ability(), AbilityId::MagicMissile);
    assert_eq!(roster[0].blurb, "Homing arcane bolts that fan out and curve in.");
    assert_eq!(characters::sentinel().blurb, s.blurb);
    assert_eq!(a.blurb, "Fragile, fast. Fires a volley of extra homing missiles.");
    let picked = character_for_key(5).unwrap();
    assert_eq!((picked.name, picked.starter, picked.stats), ("Ice Storm", ItemId::GlacierStaff, StatProfile::Test));
    assert_eq!(picked.blurb, "A placed zone that pulses cold AoE on the target for a few seconds.");
}
