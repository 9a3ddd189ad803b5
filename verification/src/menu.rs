//! Front-end flow decisions: which screen a key press leads to, which character
//! a number key selects, and what the number keys buy on the upgrades screen.

use vstd::prelude::*;

use crate::data::characters::{self, Character, SelectedCharacter, ROSTER_LEN};
use crate::meta::{spec_buy, spec_ranks, spec_upgrade_at, try_buy, MetaProgress, MAX_RANK};
use crate::states::AppState;

verus! {

/// Main menu: Enter plays (character select), otherwise U opens the upgrades.
pub fn main_menu_next(enter: bool, upgrades: bool) -> (next: Option<AppState>)
    ensures
        next == (if enter {
            Some(AppState::CharSelect)
        } else if upgrades {
            Some(AppState::Upgrades)
        } else {
            None
        }),
{
    if enter {
        Some(AppState::CharSelect)
    } else if upgrades {
        Some(AppState::Upgrades)
    } else {
        None
    }
}

/// Game over: R starts a new run.
pub fn restart_next(restart: bool) -> (next: Option<AppState>)
    ensures
        next == (if restart {
            Some(AppState::Playing)
        } else {
            None
        }),
{
    if restart {
        Some(AppState::Playing)
    } else {
        None
    }
}

/// Starting a run with `character`: it becomes the selection and play begins.
pub fn begin_run(character: Character) -> (r: (SelectedCharacter, AppState))
    ensures
        r.0.0 == character,
        r.1 == AppState::Playing,
{
    (SelectedCharacter(character), AppState::Playing)
}

/// The character the number key `index` (0-based) selects, if there is one.
pub fn character_for_key(index: usize) -> (c: Option<Character>)
    ensures
        c is Some <==> index < ROSTER_LEN,
        c matches Some(ch) ==> ch.name@ == characters::spec_roster_names()[index as int]
            && ch.blurb@ == characters::spec_roster_blurbs()[index as int]
            && ch.starter == characters::spec_roster_starters()[index as int]
            && ch.stats == characters::StatProfile::Test,
{
    let roster = characters::all();
    if index < roster.len() {
        Some(roster[index])
    } else {
        None
    }
}

/// Progress after pressing the number keys `digits` on the upgrades screen:
/// each pressed key buys its upgrade, in order.
pub open spec fn spec_digit_buys(meta: MetaProgress, digits: Seq<bool>, n: nat) -> (bool, MetaProgress)
    decreases n,
{
    if n == 0 {
        (false, meta)
    } else {
        let (any, m) = spec_digit_buys(meta, digits, (n - 1) as nat);
        if digits[n - 1] {
            let (b, m2) = spec_buy(spec_upgrade_at(n - 1), m);
            (any || b, m2)
        } else {
            (any, m)
        }
    }
}

/// The upgrades screen's keys: Escape goes back to the main menu (and buys
/// nothing); otherwise each pressed number key buys its upgrade. Returns the
/// next screen, if any, and whether anything was bought (so the caller saves).
pub fn upgrades_keys(meta: &mut MetaProgress, escape: bool, digits: &[bool; 3]) -> (r: (
    Option<AppState>,
    bool,
))
    requires
        !escape ==> forall|k: int|
            0 <= k < 3 && #[trigger] digits@[k] ==> spec_ranks(spec_upgrade_at(k), *old(meta)) <= MAX_RANK,
    ensures
        escape ==> r == (Some(AppState::MainMenu), false) && *final(meta) == *old(meta),
        !escape ==> r.0 is None && (r.1, *final(meta)) == spec_digit_buys(*old(meta), digits@, 3),
{
    if escape {
        return (Some(AppState::MainMenu), false);
    }
    let mut bought = false;
    let mut i: usize = 0;
    while i < 3
        invariant
            i <= 3,
            (bought, *meta) == spec_digit_buys(*old(meta), digits@, i as nat),
            forall|k: int| i <= k < 3 ==> spec_ranks(spec_upgrade_at(k), *meta) == spec_ranks(
                spec_upgrade_at(k),
                *old(meta),
            ),
            forall|k: int|
                0 <= k < 3 && #[trigger] digits@[k] ==> spec_ranks(spec_upgrade_at(k), *old(meta)) <= MAX_RANK,
        decreases 3 - i,
    {
        if digits[i] {
            let b = try_buy(meta, i);
            bought = bought || b;
            proof {
                assert(forall|k: int| i < k < 3 ==> spec_upgrade_at(k) != spec_upgrade_at(i as int));
            }
        }
        i = i + 1;
    }
    (None, bought)
}

} // verus!
