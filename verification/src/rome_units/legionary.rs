//! The Roman legionary.

use vstd::prelude::*;

use crate::base::abilities::AbilityImmunity;
use crate::base::units::{Health, Speed};

verus! {

/// Marker component for the legionary.  It comes with a hundred hit points,
/// half a unit per second of speed, and immunity.
#[derive(Debug, Clone, Copy, PartialEq, Eq, Structural)]
pub struct RomeLegionary;

impl RomeLegionary {
    /// The components every legionary starts with: its name, hit points,
    /// speed and ability.
    pub fn required_components() -> (r: (String, Health, Speed, AbilityImmunity))
        ensures
            r.0@ == "Legionary"@,
            r.1 == (Health { max: 100, current: 100 }),
            r.2 == Speed(500),
    {
        ("Legionary".to_owned(), Health { max: 100, current: 100 }, Speed(500), AbilityImmunity)
    }
}

} // verus!
