//! The player's inventory: a flat row of slots whose first [`EQUIP_COUNT`]
//! entries are the equipped items (each backed by a live ability) and the rest
//! the backpack (carried, inactive). No item is ever held twice.
//!
//! Besides the inventory itself this module holds the two reconciliation
//! decisions that keep the live item machines in step with it: which machines to
//! spawn or despawn when the inventory changes, and which zone command an item
//! machine needs so that it is equipped exactly when its item sits in an equip
//! slot.

use vstd::prelude::*;

use crate::data::items::ItemId;

verus! {

/// Equipment slots (the live abilities).
pub const EQUIP_COUNT: usize = 3;
/// Backpack slots (carried, inactive).
pub const BACKPACK_COUNT: usize = 6;
/// All slots.
pub const TOTAL_SLOTS: usize = EQUIP_COUNT + BACKPACK_COUNT;

/// The slots of an inventory, as a sequence.
pub type Slots = Seq<Option<ItemId>>;

/// No item occupies two slots.
pub open spec fn no_repeats(s: Slots) -> bool {
    forall|i: int, j: int|
        0 <= i < s.len() && 0 <= j < s.len() && i != j && s[i] is Some ==> #[trigger] s[i] != #[trigger] s[j]
}

/// A well-formed inventory: the right number of slots, no item twice.
pub open spec fn slots_wf(s: Slots) -> bool {
    s.len() == TOTAL_SLOTS && no_repeats(s)
}

/// `id` is held somewhere (equipped or backpack).
pub open spec fn held(s: Slots, id: ItemId) -> bool {
    exists|i: int| 0 <= i < s.len() && s[i] == Some(id)
}

/// `id` is held in an equipment slot.
pub open spec fn held_equipped(s: Slots, id: ItemId) -> bool {
    exists|i: int| 0 <= i < EQUIP_COUNT && i < s.len() && s[i] == Some(id)
}

/// The first empty slot at or after `k`, or `s.len()` when there is none.
pub open spec fn first_empty_from(s: Slots, k: int) -> int
    decreases s.len() - k,
{
    if k >= s.len() {
        s.len() as int
    } else if s[k] is None {
        k
    } else {
        first_empty_from(s, k + 1)
    }
}

/// The first empty backpack slot, or `s.len()` when the backpack is full.
pub open spec fn first_free_backpack(s: Slots) -> int {
    first_empty_from(s, EQUIP_COUNT as int)
}

/// Some backpack slot is empty.
pub open spec fn has_room(s: Slots) -> bool {
    exists|i: int| EQUIP_COUNT <= i < s.len() && s[i] is None
}

/// Whether acquiring `id` succeeds: it is not held yet and the backpack has room.
pub open spec fn spec_acquire_ok(s: Slots, id: ItemId) -> bool {
    !held(s, id) && first_free_backpack(s) < s.len()
}

/// The slots after acquiring `id`: it lands in the first free backpack slot.
pub open spec fn spec_acquire(s: Slots, id: ItemId) -> Slots {
    if spec_acquire_ok(s, id) {
        s.update(first_free_backpack(s), Some(id))
    } else {
        s
    }
}

/// The slots after swapping the contents of `a` and `b`.
pub open spec fn spec_swap(s: Slots, a: int, b: int) -> Slots {
    s.update(a, s[b]).update(b, s[a])
}

/// The occupied entries of `s`, in order.
pub open spec fn somes(s: Slots) -> Seq<ItemId>
    decreases s.len(),
{
    if s.len() == 0 {
        Seq::empty()
    } else {
        match s.last() {
            Some(id) => somes(s.drop_last()).push(id),
            None => somes(s.drop_last()),
        }
    }
}

/// The player's inventory.
pub struct Inventory {
    slots: Vec<Option<ItemId>>,
}

impl View for Inventory {
    type V = Slots;

    closed spec fn view(&self) -> Slots {
        self.slots@
    }
}

impl Inventory {
    pub open spec fn wf(&self) -> bool {
        slots_wf(self@)
    }

    /// An empty inventory.
    pub fn new() -> (inv: Self)
        ensures
            inv.wf(),
            inv@ == Seq::new(TOTAL_SLOTS as nat, |i: int| None::<ItemId>),
    {
        let mut slots: Vec<Option<ItemId>> = Vec::new();
        let mut i: usize = 0;
        while i < TOTAL_SLOTS
            invariant
                i <= TOTAL_SLOTS,
                slots@ =~= Seq::new(i as nat, |k: int| None::<ItemId>),
            decreases TOTAL_SLOTS - i,
        {
            slots.push(None);
            i = i + 1;
        }
        Inventory { slots }
    }

    /// An inventory holding only `starter`, in the first equipment slot.
    pub fn with_starter(starter: ItemId) -> (inv: Self)
        ensures
            inv.wf(),
            inv@ == Seq::new(TOTAL_SLOTS as nat, |i: int| None::<ItemId>).update(0, Some(starter)),
    {
        let mut inv = Inventory::new();
        inv.slots.set(0, Some(starter));
        inv
    }

    /// Is `index` an equipment slot (vs. a backpack slot)?
    pub fn is_equip_slot(index: usize) -> (r: bool)
        ensures
            r == (index < EQUIP_COUNT),
    {
        index < EQUIP_COUNT
    }

    /// The item in slot `index`; `None` for an empty slot or an index past the end.
    pub fn get(&self, index: usize) -> (r: Option<ItemId>)
        requires
            self.wf(),
        ensures
            r == (if index < TOTAL_SLOTS { self@[index as int] } else { None }),
    {
        if index < self.slots.len() {
            self.slots[index]
        } else {
            None
        }
    }

    /// Held anywhere (equipped or backpack).
    pub fn contains(&self, item: ItemId) -> (r: bool)
        requires
            self.wf(),
        ensures
            r == held(self@, item),
    {
        let mut i: usize = 0;
        while i < self.slots.len()
            invariant
                self.wf(),
                i <= self.slots@.len(),
                forall|k: int| 0 <= k < i ==> self.slots@[k] != Some(item),
            decreases self.slots@.len() - i,
        {
            if self.slots[i] == Some(item) {
                return true;
            }
            i = i + 1;
        }
        false
    }

    /// Held in an equipment slot (i.e. currently live).
    pub fn is_equipped(&self, item: ItemId) -> (r: bool)
        requires
            self.wf(),
        ensures
            r == held_equipped(self@, item),
    {
        let mut i: usize = 0;
        while i < EQUIP_COUNT
            invariant
                self.wf(),
                i <= EQUIP_COUNT,
                forall|k: int| 0 <= k < i ==> self.slots@[k] != Some(item),
            decreases EQUIP_COUNT - i,
        {
            if self.slots[i] == Some(item) {
                return true;
            }
            i = i + 1;
        }
        false
    }

    /// The equipped items, in slot order.
    pub fn equipped(&self) -> (v: Vec<ItemId>)
        requires
            self.wf(),
        ensures
            v@ == somes(self@.take(EQUIP_COUNT as int)),
    {
        let mut v: Vec<ItemId> = Vec::new();
        let mut i: usize = 0;
        while i < EQUIP_COUNT
            invariant
                self.wf(),
                i <= EQUIP_COUNT,
                v@ == somes(self@.take(i as int)),
            decreases EQUIP_COUNT - i,
        {
            assert(self@.take(i + 1).drop_last() =~= self@.take(i as int));
            if let Some(id) = self.slots[i] {
                v.push(id);
            }
            i = i + 1;
        }
        v
    }

    /// Is some backpack slot empty?
    pub fn backpack_has_room(&self) -> (r: bool)
        requires
            self.wf(),
        ensures
            r == has_room(self@),
    {
        let mut i: usize = EQUIP_COUNT;
        while i < TOTAL_SLOTS
            invariant
                self.wf(),
                EQUIP_COUNT <= i <= TOTAL_SLOTS,
                forall|k: int| EQUIP_COUNT <= k < i ==> self.slots@[k] is Some,
            decreases TOTAL_SLOTS - i,
        {
            if self.slots[i].is_none() {
                return true;
            }
            i = i + 1;
        }
        false
    }

    /// Put a newly-acquired item in the first free backpack slot. Returns false
    /// (and changes nothing) if it is already held or the backpack is full.
    pub fn acquire(&mut self, item: ItemId) -> (r: bool)
        requires
            old(self).wf(),
        ensures
            final(self).wf(),
            r == spec_acquire_ok(old(self)@, item),
            final(self)@ == spec_acquire(old(self)@, item),
            r ==> held(final(self)@, item),
            final(self)@.take(EQUIP_COUNT as int) == old(self)@.take(EQUIP_COUNT as int),
    {
        if self.contains(item) {
            return false;
        }
        let mut i: usize = EQUIP_COUNT;
        while i < TOTAL_SLOTS
            invariant
                self.wf(),
                *self == *old(self),
                !held(self@, item),
                EQUIP_COUNT <= i <= TOTAL_SLOTS,
                first_free_backpack(self@) == first_empty_from(self@, i as int),
            decreases TOTAL_SLOTS - i,
        {
            if self.slots[i].is_none() {
                proof {
                    lemma_first_empty_range(self@, i as int);
                }
                let ghost before = self@;
                self.slots.set(i, Some(item));
                proof {
                    assert(self@ == before.update(i as int, Some(item)));
                    lemma_place_keeps_wf(before, i as int, item);
                    assert(self@[i as int] == Some(item));
                }
                assert(self@.take(EQUIP_COUNT as int) =~= old(self)@.take(EQUIP_COUNT as int));
                return true;
            }
            i = i + 1;
        }
        false
    }

    /// Swap the contents of two slots (the inventory panel's core move).
    pub fn swap(&mut self, a: usize, b: usize)
        requires
            old(self).wf(),
            a < TOTAL_SLOTS,
            b < TOTAL_SLOTS,
        ensures
            final(self).wf(),
            final(self)@ == spec_swap(old(self)@, a as int, b as int),
    {
        let x = self.slots[a];
        let y = self.slots[b];
        self.slots.set(a, y);
        self.slots.set(b, x);
        proof {
            lemma_swap_keeps_wf(old(self)@, a as int, b as int);
        }
    }
}

impl Default for Inventory {
    fn default() -> (inv: Self)
        ensures
            inv.wf(),
            inv@ == Seq::new(TOTAL_SLOTS as nat, |i: int| None::<ItemId>),
    {
        Inventory::new()
    }
}

proof fn lemma_first_empty_range(s: Slots, k: int)
    requires
        0 <= k <= s.len(),
    ensures
        k <= first_empty_from(s, k) <= s.len(),
        first_empty_from(s, k) < s.len() ==> s[first_empty_from(s, k)] is None,
        forall|j: int| k <= j < first_empty_from(s, k) ==> s[j] is Some,
    decreases s.len() - k,
{
    if k < s.len() && s[k] is Some {
        lemma_first_empty_range(s, k + 1);
    }
}

proof fn lemma_place_keeps_wf(s: Slots, i: int, id: ItemId)
    requires
        slots_wf(s),
        0 <= i < s.len(),
        !held(s, id),
    ensures
        slots_wf(s.update(i, Some(id))),
{
    let t = s.update(i, Some(id));
    assert forall|a: int, b: int|
        0 <= a < t.len() && 0 <= b < t.len() && a != b && t[a] is Some implies #[trigger] t[a] != #[trigger] t[b] by {
        if a == i {
            assert(s[b] != Some(id));
        } else if b == i {
            assert(s[a] != Some(id));
        } else {
            assert(s[a] != s[b]);
        }
    }
}

proof fn lemma_swap_keeps_wf(s: Slots, a: int, b: int)
    requires
        slots_wf(s),
        0 <= a < s.len(),
        0 <= b < s.len(),
    ensures
        slots_wf(spec_swap(s, a, b)),
{
    let t = spec_swap(s, a, b);
    assert forall|x: int, y: int|
        0 <= x < t.len() && 0 <= y < t.len() && x != y && t[x] is Some implies #[trigger] t[x] != #[trigger] t[y] by {
        let sx: int = if x == a { b } else if x == b { a } else { x };
        let sy: int = if y == a { b } else if y == b { a } else { y };
        assert(t[x] == s[sx]);
        assert(t[y] == s[sy]);
        assert(s[sx] != s[sy]);
    }
}

/// Swapping the same two slots twice restores the inventory.
pub proof fn law_swap_involution(s: Slots, a: int, b: int)
    requires
        0 <= a < s.len(),
        0 <= b < s.len(),
    ensures
        spec_swap(spec_swap(s, a, b), a, b) == s,
{
    assert(spec_swap(spec_swap(s, a, b), a, b) =~= s);
}

/// A swap only moves items around: the same items are held before and after,
/// and the inventory stays well formed.
pub proof fn law_swap_keeps_holdings(s: Slots, a: int, b: int, id: ItemId)
    requires
        slots_wf(s),
        0 <= a < s.len(),
        0 <= b < s.len(),
    ensures
        slots_wf(spec_swap(s, a, b)),
        held(spec_swap(s, a, b), id) == held(s, id),
{
    lemma_swap_keeps_wf(s, a, b);
    let t = spec_swap(s, a, b);
    if held(s, id) {
        let i = choose|i: int| 0 <= i < s.len() && s[i] == Some(id);
        let j: int = if i == a { b } else if i == b { a } else { i };
        assert(t[j] == Some(id));
    }
    if held(t, id) {
        let i = choose|i: int| 0 <= i < t.len() && t[i] == Some(id);
        let j: int = if i == a { b } else if i == b { a } else { i };
        assert(s[j] == Some(id));
    }
}

/// An equipped item is a held item.
pub proof fn law_equipped_is_held(s: Slots, id: ItemId)
    ensures
        held_equipped(s, id) ==> held(s, id),
{
}

/// The backpack has room exactly when there is a first free backpack slot.
pub proof fn law_room_iff_free_slot(s: Slots)
    requires
        s.len() >= EQUIP_COUNT,
    ensures
        has_room(s) <==> first_free_backpack(s) < s.len(),
{
    lemma_first_empty_range(s, EQUIP_COUNT as int);
}

/// Acquiring succeeds exactly when the item is not held and the backpack has
/// room; a success leaves the item held and changes no other holding.
pub proof fn law_acquire(s: Slots, id: ItemId, other: ItemId)
    requires
        slots_wf(s),
    ensures
        spec_acquire_ok(s, id) <==> (!held(s, id) && has_room(s)),
        slots_wf(spec_acquire(s, id)),
        spec_acquire_ok(s, id) ==> held(spec_acquire(s, id), id),
        other != id ==> held(spec_acquire(s, id), other) == held(s, other),
        held_equipped(spec_acquire(s, id), other) == held_equipped(s, other),
{
    law_room_iff_free_slot(s);
    lemma_first_empty_range(s, EQUIP_COUNT as int);
    let f: int = first_free_backpack(s);
    if spec_acquire_ok(s, id) {
        lemma_place_keeps_wf(s, f, id);
        let t = spec_acquire(s, id);
        assert(t[f] == Some(id));
        if other != id {
            if held(t, other) {
                let i = choose|i: int| 0 <= i < t.len() && t[i] == Some(other);
                assert(s[i] == Some(other));
            }
            if held(s, other) {
                let i = choose|i: int| 0 <= i < s.len() && s[i] == Some(other);
                assert(t[i] == Some(other));
            }
        }
        if held_equipped(t, other) {
            let i = choose|i: int| 0 <= i < EQUIP_COUNT && i < t.len() && t[i] == Some(other);
            assert(s[i] == Some(other));
        }
        if held_equipped(s, other) {
            let i = choose|i: int| 0 <= i < EQUIP_COUNT && i < s.len() && s[i] == Some(other);
            assert(t[i] == Some(other));
        }
    }
}

/// A second acquire of the same item is refused.
pub proof fn law_acquire_twice(s: Slots, id: ItemId)
    requires
        slots_wf(s),
    ensures
        !spec_acquire_ok(spec_acquire(s, id), id),
{
    law_acquire(s, id, id);
    if !spec_acquire_ok(s, id) {
        law_room_iff_free_slot(s);
    }
}

// ---------------------------------------------------------------------------
// Reconciling live item machines with the inventory
// ---------------------------------------------------------------------------

/// The zone command an item machine needs so that its `Equipped` marker matches
/// its inventory slot.
#[derive(Clone, Copy, PartialEq, Eq, Structural, Debug)]
pub enum ZoneCommand {
    /// Drive the machine `Stored -> Equipped`.
    Equip,
    /// Drive the machine `Equipped -> Stored`.
    Unequip,
    /// The zone already matches the slot.
    Keep,
}

pub open spec fn spec_zone_command(want_equipped: bool, is_equipped: bool) -> ZoneCommand {
    if want_equipped && !is_equipped {
        ZoneCommand::Equip
    } else if !want_equipped && is_equipped {
        ZoneCommand::Unequip
    } else {
        ZoneCommand::Keep
    }
}

/// The marker an item machine carries once `c` has taken effect.
pub open spec fn marker_after(c: ZoneCommand, is_equipped: bool) -> bool {
    match c {
        ZoneCommand::Equip => true,
        ZoneCommand::Unequip => false,
        ZoneCommand::Keep => is_equipped,
    }
}

/// The command for the machine of `item`, whose `Equipped` marker is currently
/// `is_equipped`: equip it when its item sits in an equipment slot and it is not
/// equipped yet, unequip it in the opposite case, otherwise leave it.
pub fn zone_command(inv: &Inventory, item: ItemId, is_equipped: bool) -> (c: ZoneCommand)
    requires
        inv.wf(),
    ensures
        c == spec_zone_command(held_equipped(inv@, item), is_equipped),
{
    let want_equipped = inv.is_equipped(item);
    if want_equipped && !is_equipped {
        ZoneCommand::Equip
    } else if !want_equipped && is_equipped {
        ZoneCommand::Unequip
    } else {
        ZoneCommand::Keep
    }
}

/// Once a zone command has taken effect the machine's marker matches the slot,
/// and the next command for it is `Keep`.
pub proof fn law_zone_command_settles(s: Slots, item: ItemId, is_equipped: bool)
    ensures
        marker_after(spec_zone_command(held_equipped(s, item), is_equipped), is_equipped)
            == held_equipped(s, item),
        spec_zone_command(
            held_equipped(s, item),
            marker_after(spec_zone_command(held_equipped(s, item), is_equipped), is_equipped),
        ) == ZoneCommand::Keep,
{
}

/// The positions (in `live`, among its first `n`) of machines whose item has
/// left the inventory.
pub open spec fn despawn_list(s: Slots, live: Seq<ItemId>, n: nat) -> Seq<usize>
    decreases n,
{
    if n == 0 {
        Seq::empty()
    } else if !held(s, live[n - 1]) {
        despawn_list(s, live, (n - 1) as nat).push((n - 1) as usize)
    } else {
        despawn_list(s, live, (n - 1) as nat)
    }
}

/// The items held in the first `n` slots that have no live machine, in slot order.
pub open spec fn spawn_list(s: Slots, live: Seq<ItemId>, n: nat) -> Seq<ItemId>
    decreases n,
{
    if n == 0 {
        Seq::empty()
    } else {
        match s[n - 1] {
            Some(id) => if !live.contains(id) {
                spawn_list(s, live, (n - 1) as nat).push(id)
            } else {
                spawn_list(s, live, (n - 1) as nat)
            },
            None => spawn_list(s, live, (n - 1) as nat),
        }
    }
}

/// What reconciling the live item machines against the inventory does.
pub struct SyncPlan {
    /// Positions in the live list whose machines are despawned, ascending.
    pub despawn: Vec<usize>,
    /// Items that get a new machine, in slot order.
    pub spawn: Vec<ItemId>,
}

/// Reconcile the live item machines (`live[i]` is the item of machine `i`)
/// against the inventory: despawn each machine whose item is no longer held,
/// and materialize one machine for each held item that has none.
pub fn plan_sync(inv: &Inventory, live: &Vec<ItemId>) -> (p: SyncPlan)
    requires
        inv.wf(),
    ensures
        p.despawn@ == despawn_list(inv@, live@, live@.len()),
        p.spawn@ == spawn_list(inv@, live@, TOTAL_SLOTS as nat),
{
    let mut despawn: Vec<usize> = Vec::new();
    let mut i: usize = 0;
    while i < live.len()
        invariant
            inv.wf(),
            i <= live@.len(),
            despawn@ == despawn_list(inv@, live@, i as nat),
        decreases live@.len() - i,
    {
        if !inv.contains(live[i]) {
            despawn.push(i);
        }
        i = i + 1;
    }
    let mut spawn: Vec<ItemId> = Vec::new();
    let mut index: usize = 0;
    while index < TOTAL_SLOTS
        invariant
            inv.wf(),
            index <= TOTAL_SLOTS,
            spawn@ == spawn_list(inv@, live@, index as nat),
        decreases TOTAL_SLOTS - index,
    {
        if let Some(item) = inv.get(index) {
            let mut seen = false;
            let mut k: usize = 0;
            while k < live.len()
                invariant
                    k <= live@.len(),
                    seen == exists|j: int| 0 <= j < k && live@[j] == item,
                decreases live@.len() - k,
            {
                if live[k] == item {
                    seen = true;
                }
                k = k + 1;
            }
            assert(seen == live@.contains(item));
            if !seen {
                spawn.push(item);
            }
        }
        index = index + 1;
    }
    SyncPlan { despawn, spawn }
}

proof fn lemma_despawn_list(s: Slots, live: Seq<ItemId>, n: nat)
    requires
        n <= live.len(),
        live.len() <= usize::MAX,
    ensures
        forall|k: int| 0 <= k < despawn_list(s, live, n).len() ==> despawn_list(s, live, n)[k] < n,
        forall|i: int|
            0 <= i < n ==> (despawn_list(s, live, n).contains(i as usize) <==> !held(s, live[i])),
    decreases n,
{
    if n > 0 {
        let m: nat = (n - 1) as nat;
        lemma_despawn_list(s, live, m);
        let prev = despawn_list(s, live, m);
        let cur = despawn_list(s, live, n);
        assert forall|i: int| 0 <= i < n implies (cur.contains(i as usize) <==> !held(s, live[i])) by {
            if i < m {
                if cur.contains(i as usize) {
                    let k = choose|k: int| 0 <= k < cur.len() && cur[k] == i as usize;
                    if k < prev.len() {
                        assert(prev[k] == i as usize);
                    }
                }
                if prev.contains(i as usize) {
                    let k = choose|k: int| 0 <= k < prev.len() && prev[k] == i as usize;
                    assert(cur[k] == i as usize);
                }
            } else {
                if !held(s, live[i]) {
                    assert(cur[cur.len() - 1] == i as usize);
                } else {
                    assert(cur == prev);
                }
            }
        }
    }
}

proof fn lemma_spawn_list(s: Slots, live: Seq<ItemId>, n: nat, id: ItemId)
    requires
        n <= s.len(),
    ensures
        spawn_list(s, live, n).contains(id)
            <==> ((exists|j: int| 0 <= j < n && s[j] == Some(id)) && !live.contains(id)),
    decreases n,
{
    if n > 0 {
        let m: nat = (n - 1) as nat;
        lemma_spawn_list(s, live, m, id);
        let prev = spawn_list(s, live, m);
        let cur = spawn_list(s, live, n);
        if cur.contains(id) {
            let k = choose|k: int| 0 <= k < cur.len() && cur[k] == id;
            if k < prev.len() {
                assert(prev[k] == id);
            } else {
                assert(s[m as int] == Some(id));
            }
        }
        if (exists|j: int| 0 <= j < n && s[j] == Some(id)) && !live.contains(id) {
            let j = choose|j: int| 0 <= j < n && s[j] == Some(id);
            if j < m {
                let k = choose|k: int| 0 <= k < prev.len() && prev[k] == id;
                assert(cur[k] == id);
            } else {
                assert(cur[cur.len() - 1] == id);
            }
        }
    }
}

proof fn lemma_spawn_list_distinct(s: Slots, live: Seq<ItemId>, n: nat)
    requires
        slots_wf(s),
        n <= s.len(),
    ensures
        spawn_list(s, live, n).no_duplicates(),
    decreases n,
{
    if n > 0 {
        let m: nat = (n - 1) as nat;
        lemma_spawn_list_distinct(s, live, m);
        if let Some(id) = s[m as int] {
            lemma_spawn_list(s, live, m, id);
            if spawn_list(s, live, m).contains(id) {
                let j = choose|j: int| 0 <= j < m && s[j] == Some(id);
                assert(s[j] != s[m as int]);
            }
        }
    }
}

/// Reconciliation is total: once the planned machines are despawned and spawned,
/// the items with a live machine are exactly the held items, and no item gets
/// two new machines. A machine is kept
/// exactly when its item is still held, and a new machine is spawned exactly for
/// a held item that had none.
pub proof fn law_sync_total(s: Slots, live: Seq<ItemId>, id: ItemId)
    requires
        slots_wf(s),
        live.len() <= usize::MAX,
    ensures
        forall|i: int|
            0 <= i < live.len() ==> (despawn_list(s, live, live.len()).contains(i as usize)
                <==> !held(s, live[i])),
        spawn_list(s, live, TOTAL_SLOTS as nat).contains(id) <==> (held(s, id) && !live.contains(id)),
        spawn_list(s, live, TOTAL_SLOTS as nat).no_duplicates(),
        held(s, id) <==> (spawn_list(s, live, TOTAL_SLOTS as nat).contains(id) || exists|i: int|
            0 <= i < live.len() && live[i] == id && !despawn_list(s, live, live.len()).contains(
                i as usize,
            )),
{
    lemma_despawn_list(s, live, live.len());
    lemma_spawn_list(s, live, TOTAL_SLOTS as nat, id);
    lemma_spawn_list_distinct(s, live, TOTAL_SLOTS as nat);
    if held(s, id) && live.contains(id) {
        let i = choose|i: int| 0 <= i < live.len() && live[i] == id;
        assert(!despawn_list(s, live, live.len()).contains(i as usize));
    }
}

/// Moving an item hot-swaps only the abilities of the two swapped slots: every
/// other item keeps its live (equipped) status, so its machine gets no zone
/// command. A swap between two backpack slots changes no live status at all.
pub proof fn law_swap_hot_swaps_only_moved(s: Slots, a: int, b: int, id: ItemId)
    requires
        slots_wf(s),
        0 <= a < s.len(),
        0 <= b < s.len(),
    ensures
        s[a] != Some(id) && s[b] != Some(id) ==> held_equipped(spec_swap(s, a, b), id)
            == held_equipped(s, id),
        a >= EQUIP_COUNT && b >= EQUIP_COUNT ==> held_equipped(spec_swap(s, a, b), id)
            == held_equipped(s, id),
{
    let t = spec_swap(s, a, b);
    if held_equipped(t, id) {
        let i = choose|i: int| 0 <= i < EQUIP_COUNT && i < t.len() && t[i] == Some(id);
        if i != a && i != b {
            assert(s[i] == Some(id));
        }
    }
    if held_equipped(s, id) {
        let i = choose|i: int| 0 <= i < EQUIP_COUNT && i < s.len() && s[i] == Some(id);
        if i != a && i != b {
            assert(t[i] == Some(id));
        }
    }
}

proof fn lemma_despawn_list_same_holdings(s1: Slots, s2: Slots, live: Seq<ItemId>, n: nat)
    requires
        n <= live.len(),
        forall|id: ItemId| held(s1, id) == held(s2, id),
    ensures
        despawn_list(s1, live, n) == despawn_list(s2, live, n),
    decreases n,
{
    if n > 0 {
        lemma_despawn_list_same_holdings(s1, s2, live, (n - 1) as nat);
        assert(held(s1, live[n - 1]) == held(s2, live[n - 1]));
    }
}

/// Swapping slots never despawns an item machine: the machines (and the
/// rank-ups applied to them) outlive any un- or re-equip.
pub proof fn law_swap_keeps_machines(s: Slots, live: Seq<ItemId>, a: int, b: int)
    requires
        slots_wf(s),
        0 <= a < s.len(),
        0 <= b < s.len(),
    ensures
        despawn_list(spec_swap(s, a, b), live, live.len()) == despawn_list(s, live, live.len()),
{
    assert forall|id: ItemId| held(spec_swap(s, a, b), id) == held(s, id) by {
        law_swap_keeps_holdings(s, a, b, id);
    }
    lemma_despawn_list_same_holdings(spec_swap(s, a, b), s, live, live.len());
}

} // verus!
