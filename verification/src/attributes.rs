//! The four core statistics shared by characters, monsters and equipment
//! bonuses, with componentwise delta application.

use vstd::prelude::*;

verus! {

/// A bundle of the four base statistics. Pure value type: nothing here is ever
/// clamped; keeping health within range is the owner's responsibility.
#[derive(Debug, Clone, Copy)]
pub struct Attributes {
    pub health: i32,
    pub strength: i32,
    pub defense: i32,
    pub agility: i32,
}

/// The componentwise sum of `base` and `delta`, each field truncated into
/// `i32`. Callers that rule out overflow (see [`delta_fits`]) get the exact
/// mathematical sum.
pub open spec fn spec_apply_delta(base: Attributes, delta: Attributes) -> Attributes {
    Attributes {
        health: (base.health + delta.health) as i32,
        strength: (base.strength + delta.strength) as i32,
        defense: (base.defense + delta.defense) as i32,
        agility: (base.agility + delta.agility) as i32,
    }
}

/// Every componentwise sum of `base` and `delta` stays within `i32`.
pub open spec fn delta_fits(base: Attributes, delta: Attributes) -> bool {
    &&& i32::MIN <= base.health + delta.health <= i32::MAX
    &&& i32::MIN <= base.strength + delta.strength <= i32::MAX
    &&& i32::MIN <= base.defense + delta.defense <= i32::MAX
    &&& i32::MIN <= base.agility + delta.agility <= i32::MAX
}

/// The delta that changes nothing.
pub open spec fn zero_attributes() -> Attributes {
    Attributes { health: 0, strength: 0, defense: 0, agility: 0 }
}

impl Attributes {
    /// Builds an attribute bundle from its four statistics.
    pub fn new(health: i32, strength: i32, defense: i32, agility: i32) -> (r: Attributes)
        ensures
            r == (Attributes { health, strength, defense, agility }),
    {
        Attributes { health, strength, defense, agility }
    }

    /// Adds `delta` onto these attributes, field by field. A positive field is
    /// a bonus, a negative one a malus.
    pub fn apply_delta(&mut self, delta: &Attributes)
        requires
            delta_fits(*old(self), *delta),
        ensures
            *final(self) == spec_apply_delta(*old(self), *delta),
    {
        self.health = self.health + delta.health;
        self.strength = self.strength + delta.strength;
        self.defense = self.defense + delta.defense;
        self.agility = self.agility + delta.agility;
    }
}

/// Delta application is commutative: combining two attribute bundles gives the
/// same result whichever of the two is taken as the base.
pub proof fn lemma_apply_delta_commutes(a: Attributes, b: Attributes)
    ensures
        spec_apply_delta(a, b) == spec_apply_delta(b, a),
{
}

/// The all-zero delta is an identity: applying it leaves every field unchanged.
pub proof fn lemma_apply_delta_identity(a: Attributes)
    ensures
        spec_apply_delta(a, zero_attributes()) == a,
{
}

} // verus!
