use diesel_survivors::ability::Inventory;
use diesel_survivors::damage::{DamageEffect, DamageType};
use diesel_survivors::data::items::ItemId;
use diesel_survivors::inventory::slot_label;
use diesel_survivors::meta::{souls_label, upgrade_label, MetaProgress};
use diesel_survivors::player::move_axes;
use diesel_survivors::progression::{instant_expression, magnitude_label, DraftOption, Experience, Op, Tier};
use diesel_survivors::text::decimal_string;

#[test]
fn decimals() {
    assert_eq!(decimal_string(0), "0");
    assert_eq!(decimal_string(7), "7");
    assert_eq!(decimal_string(10), "10");
    assert_eq!(decimal_string(305), "305");
    assert_eq!(decimal_string(u32::MAX), u32::MAX.to_string());
}

#[test]
fn magnitudes() {
    assert_eq!(magnitude_label(Op::AddPct, 10), "+10%");
    assert_eq!(magnitude_label(Op::SubPct, 35), "\u{2212}35%");
    assert_eq!(magnitude_label(Op::AddFlat(1), 20), "+1");
}

#[test]
fn draft_option_labels() {
    assert_eq!(DraftOption::Equip(ItemId::IronSword).label(), "Iron Sword \u{2014} New");
    assert_eq!(
        DraftOption::AbilityUp { item: ItemId::ApprenticeStaff, stat: 1, tier: Tier::Rare }.label(),
        "Magic Missile \u{2014} Rare \u{2212}20% Cooldown"
    );
    assert_eq!(
        DraftOption::Global { kind: 0, tier: Tier::Legendary }.label(),
        "Power +35% \u{2014} Legendary (global)"
    );
    assert_eq!(
        DraftOption::Global { kind: 5, tier: Tier::Common }.label(),
        "Multishot +1 \u{2014} Common (global)"
    );
}

#[test]
fn upgrade_expressions() {
    assert_eq!(instant_expression("Damage", 10), "Damage * 0.1");
    assert_eq!(instant_expression("CooldownBase", 35), "CooldownBase * 0.35");
    assert_eq!(instant_expression("Area", 20), "Area * 0.2");
    assert_eq!(instant_expression("Area", 5), "Area * 0.05");
    assert_eq!(instant_expression("Area", 35), format!("Area * {}", 0.35f32));
}

#[test]
fn meta_labels() {
    let m = MetaProgress { souls: 42, vitality_ranks: 2, damage_ranks: 0, move_speed_ranks: 0 };
    assert_eq!(upgrade_label(0, &m), "Vitality   rank 2   -   30 souls");
    assert_eq!(upgrade_label(2, &m), "Move Speed   rank 0   -   10 souls");
    assert_eq!(souls_label(&m), "Souls: 42");
}

#[test]
fn hud_and_slot_labels() {
    let xp = Experience { current: 4, level: 3, to_next: 7 };
    assert_eq!(xp.label(), "Lv 3   XP 4/7");
    let mut inv = Inventory::with_starter(ItemId::HuntingBow);
    assert!(inv.acquire(ItemId::PyreStaff));
    assert_eq!(slot_label(&inv, 0), "Hunting Bow [Bow]");
    assert_eq!(slot_label(&inv, 3), "Pyre Staff [Staff]");
    assert_eq!(slot_label(&inv, 1), "\u{2014}");
    assert_eq!(slot_label(&inv, 99), "\u{2014}");
}

#[test]
fn damage_effects() {
    let d = DamageEffect::fire("Damage@invoker * 1.5");
    assert_eq!(d.expr, "Damage@invoker * 1.5");
    assert_eq!(d.damage_type, DamageType::Fire);
    assert_eq!(DamageEffect::physical("1").damage_type, DamageType::Physical);
    assert_eq!(DamageEffect::cold("1").damage_type, DamageType::Cold);
    assert_eq!(DamageEffect::lightning("1").damage_type, DamageType::Lightning);
    assert_eq!(DamageEffect::arcane("1").damage_type, DamageType::Arcane);
    assert_eq!(DamageEffect::new("x", DamageType::Cold).expr, "x");
}

#[test]
fn movement_keys() {
    assert_eq!(move_axes(true, false, false, false), (0, -1));
    assert_eq!(move_axes(false, true, false, true), (1, 1));
    assert_eq!(move_axes(true, true, true, true), (0, 0));
    assert_eq!(move_axes(false, false, true, false), (-1, 0));
}
