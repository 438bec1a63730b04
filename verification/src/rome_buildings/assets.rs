//! The loaded models the Roman buildings are drawn with.
//!
//! The engine's asset server hands models over as opaque handles; here a
//! handle is a plain integer, and a loaded model is the list of scene handles
//! it contains.

use vstd::prelude::*;

use crate::base::factions::RomeBuildingType;

verus! {

/// The building models the loading phase gathered, one handle per building
/// kind that has been modelled so far.
#[derive(Debug, Clone, Copy, PartialEq, Eq, Structural)]
pub struct RomeBuildingsAssets {
    pub cottage: Option<u64>,
    pub barracks: Option<u64>,
    pub armory: Option<u64>,
}

impl RomeBuildingsAssets {
    /// The model handle stored for a building kind.
    pub open spec fn spec_model_handle(self, building_type: RomeBuildingType) -> Option<u64> {
        match building_type {
            RomeBuildingType::Cottage => self.cottage,
            RomeBuildingType::Barracks => self.barracks,
            RomeBuildingType::Armory => self.armory,
        }
    }

    /// Look the model handle for a building kind up.
    pub fn model_handle(&self, building_type: RomeBuildingType) -> (r: Option<u64>)
        ensures
            r == self.spec_model_handle(building_type),
    {
        match building_type {
            RomeBuildingType::Cottage => self.cottage,
            RomeBuildingType::Barracks => self.barracks,
            RomeBuildingType::Armory => self.armory,
        }
    }
}

/// A loaded model: the scenes it bundles, as scene handles.
#[derive(Debug, Clone, PartialEq, Eq)]
pub struct GltfModel {
    pub scenes: Vec<u64>,
}

/// The first model stored under a handle, searching the entries in order.
pub open spec fn spec_lookup(entries: Seq<(u64, GltfModel)>, handle: u64) -> Option<GltfModel>
    decreases entries.len(),
{
    if entries.len() == 0 {
        Option::None
    } else if entries[0].0 == handle {
        Option::Some(entries[0].1)
    } else {
        spec_lookup(entries.drop_first(), handle)
    }
}

/// The store of loaded models, keyed by their handles.
#[derive(Debug, Clone, PartialEq, Eq)]
pub struct GltfAssets {
    pub entries: Vec<(u64, GltfModel)>,
}

impl GltfAssets {
    /// The model stored under a handle, if one is.
    pub open spec fn spec_get(self, handle: u64) -> Option<GltfModel> {
        spec_lookup(self.entries@, handle)
    }

    /// Fetch the model stored under a handle.
    pub fn get(&self, handle: u64) -> (r: Option<&GltfModel>)
        ensures
            match r {
                Option::Some(m) => self.spec_get(handle) == Option::Some(*m),
                Option::None => self.spec_get(handle) is None,
            },
    {
        let n = self.entries.len();
        let mut i: usize = 0;
        proof {
            assert(self.entries@.skip(0) =~= self.entries@);
        }
        while i < n
            invariant
                i <= n,
                n == self.entries@.len(),
                spec_lookup(self.entries@, handle) == spec_lookup(
                    self.entries@.skip(i as int),
                    handle,
                ),
            decreases n - i,
        {
            proof {
                assert(self.entries@.skip(i as int)[0] == self.entries@[i as int]);
                assert(self.entries@.skip(i as int).drop_first() =~= self.entries@.skip(
                    i as int + 1,
                ));
            }
            if self.entries[i].0 == handle {
                return Option::Some(&self.entries[i].1);
            }
            i = i + 1;
        }
        proof {
            assert(self.entries@.skip(n as int) =~= Seq::<(u64, GltfModel)>::empty());
        }
        Option::None
    }
}

} // verus!
