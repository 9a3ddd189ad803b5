# diesel_survivors

The rules of a survivors-like arena game as a Verus-verified library, with the
bevy game around it.

- `src/` is the verified library: the player's inventory (equipment slots and
  backpack, two-click swapping, reconciling live item machines with it), the
  level-up draft and experience, rarity rolls, metaprogression purchases, team
  filtering, the drop table, the content catalogs (abilities, items,
  characters) and the labels the game shows. Each public function states its
  result in `ensures`; the `law_*` proof functions state the properties that
  hold across calls (swaps are involutions and keep holdings, acquiring twice is
  refused, reconciliation is total, tier odds match their weights, purchases
  spend exactly their price, ...).
- `tests/` exercises the library on concrete values.
- `app/` is the bevy program: plugins, systems, scenes, physics, rendering and
  save files. It calls the library for every decision and keeps the floating
  point simulation (movement, distances, health, damage evaluation) itself.
