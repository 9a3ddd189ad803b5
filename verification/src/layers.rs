//! Physics layers and team-based hit filtering: an ability only hits entities
//! on a different team than its invoker.

use vstd::prelude::*;

verus! {

/// Collision layers.
#[derive(Clone, Copy, PartialEq, Eq, Structural, Debug)]
pub enum Layer {
    Terrain,
    Character,
    Projectile,
    Pickup,
}

impl Default for Layer {
    fn default() -> (l: Self)
        ensures
            l == Layer::Terrain,
    {
        Layer::Terrain
    }
}

/// Which side an entity fights for.
#[derive(Clone, Copy, PartialEq, Eq, Structural, Debug)]
pub struct Team(pub u32);

impl Team {
    /// The player's team.
    pub fn player() -> (t: Team)
        ensures
            t.0 == 0,
    {
        Team(0)
    }

    /// The enemy team.
    pub fn enemies() -> (t: Team)
        ensures
            t.0 == 1,
    {
        Team(1)
    }
}

impl Default for Team {
    fn default() -> (t: Self)
        ensures
            t.0 == 0,
    {
        Team(0)
    }
}

/// Filters hits by team. `Enemies` restricts an ability to entities on a
/// different team than its invoker.
#[derive(Clone, Copy, PartialEq, Eq, Structural, Debug)]
pub enum TeamFilter {
    Enemies,
}

impl Default for TeamFilter {
    fn default() -> (f: Self)
        ensures
            f == TeamFilter::Enemies,
    {
        TeamFilter::Enemies
    }
}

pub open spec fn spec_can_target(invoker: Option<Team>, target: Option<Team>) -> bool {
    match (invoker, target) {
        (Some(i), Some(t)) => i.0 != t.0,
        _ => true,
    }
}

impl TeamFilter {
    /// Whether an ability invoked by `invoker` may hit `target`. When either
    /// side has no team the hit is allowed.
    pub fn can_target(&self, invoker: Option<Team>, target: Option<Team>) -> (r: bool)
        ensures
            r == spec_can_target(invoker, target),
    {
        match (self, invoker, target) {
            (TeamFilter::Enemies, Some(i), Some(t)) => i.0 != t.0,
            _ => true,
        }
    }
}

/// Team filtering never lets an entity hit its own team, is symmetric, and
/// lets the player and the enemies hit each other.
pub proof fn law_team_filter(a: Team, b: Team)
    ensures
        !spec_can_target(Some(a), Some(a)),
        spec_can_target(Some(a), Some(b)) == spec_can_target(Some(b), Some(a)),
        spec_can_target(Some(Team(0)), Some(Team(1))),
        spec_can_target(Some(Team(1)), Some(Team(0))),
{
}

} // verus!
