//! Enemy spawning: a timer drips chasers in around the player, up to a cap.

use vstd::prelude::*;

verus! {

/// The most enemies alive at once.
pub const MAX_ENEMIES: usize = 60;

/// Whether the spawner places an enemy this frame: only when its timer has just
/// finished and fewer than [`MAX_ENEMIES`] are alive.
pub fn spawn_allowed(timer_finished: bool, enemy_count: usize) -> (r: bool)
    ensures
        r == (timer_finished && enemy_count < MAX_ENEMIES),
{
    timer_finished && enemy_count < MAX_ENEMIES
}

} // verus!
