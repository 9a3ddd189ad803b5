//! Player input: the held movement keys as a direction on the ground plane.
//! The camera looks down, so screen-up (W) is -Z and screen-right (D) is +X.

use vstd::prelude::*;

verus! {

/// The unnormalized ground-plane direction of the held keys, as `(x, z)` with
/// each axis in `-1..=1`; opposite keys cancel.
pub fn move_axes(up: bool, down: bool, left: bool, right: bool) -> (r: (i32, i32))
    ensures
        r.0 == (if right { 1int } else { 0int }) - (if left { 1int } else { 0int }),
        r.1 == (if down { 1int } else { 0int }) - (if up { 1int } else { 0int }),
{
    let mut x: i32 = 0;
    let mut z: i32 = 0;
    if up {
        z = z - 1;
    }
    if down {
        z = z + 1;
    }
    if left {
        x = x - 1;
    }
    if right {
        x = x + 1;
    }
    (x, z)
}

} // verus!
