//! Damage typing. A damage effect declares a raw-damage expression and an
//! element; the element selects which slice of the defender's `Resistance`
//! applies. The evaluation of the expression against the attribute graphs is
//! the game shell's job.

use vstd::prelude::*;

verus! {

/// The element of a hit.
#[derive(Clone, Copy, PartialEq, Eq, Structural, Debug)]
pub enum DamageType {
    Physical,
    Fire,
    Cold,
    Lightning,
    Arcane,
}

/// A sub-effect that deals damage when its parent state fires.
#[derive(Debug)]
pub struct DamageEffect {
    /// Expression for raw damage, evaluated with `invoker`/`target` roles.
    pub expr: String,
    /// Element, used for resistance lookups on the defender.
    pub damage_type: DamageType,
}

impl DamageEffect {
    pub fn new(expr: &str, damage_type: DamageType) -> (d: Self)
        ensures
            d.expr@ == expr@,
            d.damage_type == damage_type,
    {
        DamageEffect { expr: expr.to_owned(), damage_type }
    }

    pub fn physical(expr: &str) -> (d: Self)
        ensures
            d.expr@ == expr@,
            d.damage_type == DamageType::Physical,
    {
        Self::new(expr, DamageType::Physical)
    }

    pub fn fire(expr: &str) -> (d: Self)
        ensures
            d.expr@ == expr@,
            d.damage_type == DamageType::Fire,
    {
        Self::new(expr, DamageType::Fire)
    }

    pub fn cold(expr: &str) -> (d: Self)
        ensures
            d.expr@ == expr@,
            d.damage_type == DamageType::Cold,
    {
        Self::new(expr, DamageType::Cold)
    }

    pub fn lightning(expr: &str) -> (d: Self)
        ensures
            d.expr@ == expr@,
            d.damage_type == DamageType::Lightning,
    {
        Self::new(expr, DamageType::Lightning)
    }

    pub fn arcane(expr: &str) -> (d: Self)
        ensures
            d.expr@ == expr@,
            d.damage_type == DamageType::Arcane,
    {
        Self::new(expr, DamageType::Arcane)
    }
}

} // verus!
