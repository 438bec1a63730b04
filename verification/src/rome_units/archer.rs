//! The Roman archer.

use vstd::prelude::*;

use crate::base::abilities::AbilityTripleDamage;
use crate::base::units::{AttackRange, Health, Speed};

verus! {

/// A unit kind that can name itself for the spawning machinery.
pub trait SpawnableUnit {
    /// The name this kind goes by.
    spec fn spec_unit_type(&self) -> Seq<char>;

    /// Build the unit, announcing its kind.
    fn build_unit(&self) -> (r: &'static str)
        ensures
            r@ == self.spec_unit_type(),
    ;
}

/// Marker component for the archer.  It comes with fifty hit points, a speed
/// of one unit per second, an attack reach of twenty and threefold damage.
#[derive(Debug, Clone, Copy, PartialEq, Eq, Structural)]
pub struct RomeArcher;

impl RomeArcher {
    /// The components every archer starts with: its name, hit points, speed,
    /// reach and ability.
    pub fn required_components() -> (r: (String, Health, Speed, AttackRange, AbilityTripleDamage))
        ensures
            r.0@ == "Archer"@,
            r.1 == (Health { max: 50, current: 50 }),
            r.2 == Speed(1000),
            r.3 == AttackRange(20),
    {
        (
            "Archer".to_owned(),
            Health { max: 50, current: 50 },
            Speed(1000),
            AttackRange(20),
            AbilityTripleDamage,
        )
    }
}

impl SpawnableUnit for RomeArcher {
    open spec fn spec_unit_type(&self) -> Seq<char> {
        "Archer"@
    }

    fn build_unit(&self) -> (r: &'static str) {
        "Archer"
    }
}

} // verus!
