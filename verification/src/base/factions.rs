//! The playable factions and the building rosters they bring.

use vstd::prelude::*;

verus! {

/// A playable civilisation.
#[derive(Debug, Hash, Eq, PartialEq, Clone, Copy, Structural)]
pub enum Factions {
    Rome,
}

/// The buildings of the Roman roster.
#[derive(Debug, Hash, Eq, PartialEq, Clone, Copy, Structural)]
pub enum RomeBuildingType {
    Cottage,
    Barracks,
    Armory,
}

/// The building whose model lives at the given asset path, if any does.
pub open spec fn spec_building_for_path(path: Seq<char>) -> Option<RomeBuildingType> {
    if path == "buildings/Cottage.glb"@ {
        Option::Some(RomeBuildingType::Cottage)
    } else if path == "buildings/Armory.glb"@ {
        Option::Some(RomeBuildingType::Armory)
    } else if path == "buildings/Barracks.glb"@ {
        Option::Some(RomeBuildingType::Barracks)
    } else {
        Option::None
    }
}

impl RomeBuildingType {
    /// The building whose model was loaded from the given asset path.  Only
    /// the three roster paths name a building; no other path is handed in.
    pub fn from_asset_path(path: &str) -> (r: Self)
        requires
            spec_building_for_path(path@) is Some,
        ensures
            Option::Some(r) == spec_building_for_path(path@),
    {
        let p = path.to_owned();
        if p == "buildings/Cottage.glb".to_owned() {
            RomeBuildingType::Cottage
        } else if p == "buildings/Armory.glb".to_owned() {
            RomeBuildingType::Armory
        } else {
            RomeBuildingType::Barracks
        }
    }
}

} // verus!
