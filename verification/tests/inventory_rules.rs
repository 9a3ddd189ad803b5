use diesel_survivors::ability::{plan_sync, zone_command, Inventory, ZoneCommand, EQUIP_COUNT, TOTAL_SLOTS};
use diesel_survivors::data::items::ItemId;
use diesel_survivors::inventory::{slot_style, Selection, SlotStyle};

fn occupied(inv: &Inventory) -> Vec<Option<ItemId>> {
    (0..TOTAL_SLOTS).map(|i| inv.get(i)).collect()
}

#[test]
fn starter_fills_first_equip_slot() {
    let inv = Inventory::with_starter(ItemId::ApprenticeStaff);
    assert_eq!(inv.get(0), Some(ItemId::ApprenticeStaff));
    for i in 1..TOTAL_SLOTS {
        assert_eq!(inv.get(i), None);
    }
    assert_eq!(inv.get(TOTAL_SLOTS), None);
    assert_eq!(inv.get(usize::MAX), None);
    assert!(inv.contains(ItemId::ApprenticeStaff));
    assert!(inv.is_equipped(ItemId::ApprenticeStaff));
    assert!(!inv.contains(ItemId::IronSword));
    assert_eq!(inv.equipped(), vec![ItemId::ApprenticeStaff]);
    assert!(inv.backpack_has_room());
}

#[test]
fn default_inventory_is_empty() {
    let inv = Inventory::default();
    assert!(occupied(&inv).iter().all(|s| s.is_none()));
    assert!(inv.equipped().is_empty());
}

#[test]
fn equip_slots_are_the_first_three() {
    assert_eq!(EQUIP_COUNT, 3);
    assert_eq!(TOTAL_SLOTS, 9);
    assert!(Inventory::is_equip_slot(0));
    assert!(Inventory::is_equip_slot(2));
    assert!(!Inventory::is_equip_slot(3));
    assert!(!Inventory::is_equip_slot(8));
}

#[test]
fn acquire_goes_to_first_free_backpack_slot() {
    let mut inv = Inventory::with_starter(ItemId::ApprenticeStaff);
    assert!(inv.acquire(ItemId::IronSword));
    assert_eq!(inv.get(3), Some(ItemId::IronSword));
    assert!(inv.acquire(ItemId::HuntingBow));
    assert_eq!(inv.get(4), Some(ItemId::HuntingBow));
    // Acquired items land in the backpack: the live set is unchanged.
    assert_eq!(inv.equipped(), vec![ItemId::ApprenticeStaff]);
    assert!(!inv.is_equipped(ItemId::IronSword));
    assert!(inv.contains(ItemId::IronSword));
}

#[test]
fn acquire_refuses_held_item() {
    let mut inv = Inventory::with_starter(ItemId::ApprenticeStaff);
    let before = occupied(&inv);
    assert!(!inv.acquire(ItemId::ApprenticeStaff));
    assert_eq!(occupied(&inv), before);
    assert!(inv.acquire(ItemId::PyreStaff));
    assert!(!inv.acquire(ItemId::PyreStaff));
}

#[test]
fn acquire_refuses_when_backpack_full() {
    let mut inv = Inventory::with_starter(ItemId::ApprenticeStaff);
    let items = [
        ItemId::EmberwoodStaff,
        ItemId::FrostpineStaff,
        ItemId::PyreStaff,
        ItemId::WhirlingBlade,
        ItemId::GlacierStaff,
        ItemId::CinderStaff,
    ];
    for item in items {
        assert!(inv.acquire(item));
    }
    assert!(!inv.backpack_has_room());
    let before = occupied(&inv);
    assert!(!inv.acquire(ItemId::IronSword));
    assert_eq!(occupied(&inv), before);
    // A free equipment slot does not count as backpack room.
    assert_eq!(inv.get(1), None);
}

#[test]
fn backpack_gap_is_refilled_first() {
    let mut inv = Inventory::with_starter(ItemId::ApprenticeStaff);
    assert!(inv.acquire(ItemId::IronSword));
    assert!(inv.acquire(ItemId::HuntingBow));
    // Move the sword into an equip slot; slot 3 opens up.
    inv.swap(3, 1);
    assert_eq!(inv.get(3), None);
    assert!(inv.acquire(ItemId::RunedStaff));
    assert_eq!(inv.get(3), Some(ItemId::RunedStaff));
}

#[test]
fn swap_moves_items_and_twice_restores() {
    let mut inv = Inventory::with_starter(ItemId::ApprenticeStaff);
    assert!(inv.acquire(ItemId::IronSword));
    let before = occupied(&inv);
    inv.swap(0, 3);
    assert_eq!(inv.get(0), Some(ItemId::IronSword));
    assert_eq!(inv.get(3), Some(ItemId::ApprenticeStaff));
    assert_eq!(inv.equipped(), vec![ItemId::IronSword]);
    assert!(inv.contains(ItemId::ApprenticeStaff));
    assert!(!inv.is_equipped(ItemId::ApprenticeStaff));
    inv.swap(0, 3);
    assert_eq!(occupied(&inv), before);
    inv.swap(5, 5);
    assert_eq!(occupied(&inv), before);
}

#[test]
fn equipped_lists_in_slot_order_skipping_gaps() {
    let mut inv = Inventory::with_starter(ItemId::ApprenticeStaff);
    assert!(inv.acquire(ItemId::IronSword));
    assert!(inv.acquire(ItemId::HuntingBow));
    inv.swap(3, 2);
    assert_eq!(inv.equipped(), vec![ItemId::ApprenticeStaff, ItemId::IronSword]);
    inv.swap(4, 1);
    assert_eq!(inv.equipped(), vec![ItemId::ApprenticeStaff, ItemId::HuntingBow, ItemId::IronSword]);
}

#[test]
fn click_picks_up_then_swaps() {
    let mut inv = Inventory::with_starter(ItemId::ApprenticeStaff);
    assert!(inv.acquire(ItemId::IronSword));
    let mut sel = Selection::new();
    sel.click(&mut inv, 3);
    assert_eq!(sel, Selection(Some(3)));
    assert_eq!(inv.get(3), Some(ItemId::IronSword));
    sel.click(&mut inv, 1);
    assert_eq!(sel, Selection(None));
    assert_eq!(inv.get(1), Some(ItemId::IronSword));
    assert_eq!(inv.get(3), None);
}

#[test]
fn click_on_empty_slot_is_ignored() {
    let mut inv = Inventory::with_starter(ItemId::ApprenticeStaff);
    let mut sel = Selection::default();
    sel.click(&mut inv, 5);
    assert_eq!(sel, Selection(None));
    assert_eq!(inv.get(0), Some(ItemId::ApprenticeStaff));
}

#[test]
fn click_same_slot_cancels() {
    let mut inv = Inventory::with_starter(ItemId::ApprenticeStaff);
    let before = occupied(&inv);
    let mut sel = Selection::new();
    sel.click(&mut inv, 0);
    sel.click(&mut inv, 0);
    assert_eq!(sel, Selection(None));
    assert_eq!(occupied(&inv), before);
    sel.click(&mut inv, 0);
    sel.reset();
    assert_eq!(sel, Selection(None));
}

#[test]
fn slot_styles() {
    let mut inv = Inventory::with_starter(ItemId::ApprenticeStaff);
    assert!(inv.acquire(ItemId::IronSword));
    let none = Selection(None);
    assert_eq!(slot_style(&Selection(Some(4)), true, &inv, 4), SlotStyle::Selected);
    assert_eq!(slot_style(&none, true, &inv, 0), SlotStyle::Hovered);
    assert_eq!(slot_style(&none, false, &inv, 0), SlotStyle::Equipped);
    assert_eq!(slot_style(&none, false, &inv, 3), SlotStyle::Occupied);
    assert_eq!(slot_style(&none, false, &inv, 1), SlotStyle::Empty);
    assert_eq!(slot_style(&none, false, &inv, 7), SlotStyle::Empty);
}

#[test]
fn sync_spawns_missing_and_despawns_dropped() {
    let mut inv = Inventory::with_starter(ItemId::ApprenticeStaff);
    assert!(inv.acquire(ItemId::IronSword));
    let live = vec![ItemId::HuntingBow, ItemId::ApprenticeStaff, ItemId::PyreStaff];
    let plan = plan_sync(&inv, &live);
    assert_eq!(plan.despawn, vec![0, 2]);
    assert_eq!(plan.spawn, vec![ItemId::IronSword]);
}

#[test]
fn sync_of_matching_machines_is_empty() {
    let mut inv = Inventory::with_starter(ItemId::ApprenticeStaff);
    assert!(inv.acquire(ItemId::IronSword));
    let live = vec![ItemId::IronSword, ItemId::ApprenticeStaff];
    let plan = plan_sync(&inv, &live);
    assert!(plan.despawn.is_empty());
    assert!(plan.spawn.is_empty());
    let fresh = plan_sync(&inv, &Vec::new());
    assert_eq!(fresh.spawn, vec![ItemId::ApprenticeStaff, ItemId::IronSword]);
}

#[test]
fn zone_commands_follow_the_slot() {
    let mut inv = Inventory::with_starter(ItemId::ApprenticeStaff);
    assert!(inv.acquire(ItemId::IronSword));
    assert_eq!(zone_command(&inv, ItemId::ApprenticeStaff, false), ZoneCommand::Equip);
    assert_eq!(zone_command(&inv, ItemId::ApprenticeStaff, true), ZoneCommand::Keep);
    assert_eq!(zone_command(&inv, ItemId::IronSword, true), ZoneCommand::Unequip);
    assert_eq!(zone_command(&inv, ItemId::IronSword, false), ZoneCommand::Keep);
}

#[test]
fn swaps_never_despawn_machines() {
    let mut inv = Inventory::with_starter(ItemId::ApprenticeStaff);
    assert!(inv.acquire(ItemId::IronSword));
    assert!(inv.acquire(ItemId::HuntingBow));
    let live = vec![ItemId::ApprenticeStaff, ItemId::IronSword, ItemId::HuntingBow];
    for (a, b) in [(0, 3), (3, 4), (1, 4), (0, 0)] {
        inv.swap(a, b);
        let plan = plan_sync(&inv, &live);
        assert!(plan.despawn.is_empty());
        assert!(plan.spawn.is_empty());
    }
}

#[test]
fn backpack_swap_changes_no_live_ability() {
    let mut inv = Inventory::with_starter(ItemId::ApprenticeStaff);
    assert!(inv.acquire(ItemId::IronSword));
    assert!(inv.acquire(ItemId::HuntingBow));
    inv.swap(3, 4);
    assert_eq!(zone_command(&inv, ItemId::ApprenticeStaff, true), ZoneCommand::Keep);
    assert_eq!(zone_command(&inv, ItemId::IronSword, false), ZoneCommand::Keep);
    assert_eq!(zone_command(&inv, ItemId::HuntingBow, false), ZoneCommand::Keep);
    // Equipping the bow hot-swaps just the bow and the item it displaced.
    inv.swap(0, 3);
    assert_eq!(zone_command(&inv, ItemId::HuntingBow, false), ZoneCommand::Equip);
    assert_eq!(zone_command(&inv, ItemId::ApprenticeStaff, true), ZoneCommand::Unequip);
    assert_eq!(zone_command(&inv, ItemId::IronSword, false), ZoneCommand::Keep);
}
