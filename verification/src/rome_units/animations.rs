//! The animation assets the Roman units play, as the engine's handles.

use vstd::prelude::*;

verus! {

/// The animation to start once a unit's scene is ready: the graph the engine
/// built and the clip it plays.
#[derive(Debug, Clone, Copy, PartialEq, Eq, Structural)]
pub struct RomeUnitAnimationPlay {
    pub graph_handle: u64,
    pub clip: u64,
}

/// The one model and its clips that every Roman unit is drawn with.
#[derive(Debug, Clone, Copy, PartialEq, Eq, Structural)]
pub struct RomeUnitsAnimationAssets {
    pub scene: u64,
    pub idle_animation: u64,
    pub walk_animation: u64,
    pub run_animation: u64,
    pub fight_animation: u64,
    pub die_animation: u64,
}

/// The engine's store of animation graphs: adding a graph hands out the next
/// handle.
#[derive(Debug, Clone, Copy, PartialEq, Eq, Structural)]
pub struct AnimationGraphs {
    pub next_handle: u64,
}

impl AnimationGraphs {
    /// Store one more graph and get its handle.
    pub fn add(&mut self) -> (r: u64)
        requires
            old(self).next_handle < u64::MAX,
        ensures
            r == old(self).next_handle,
            final(self).next_handle == old(self).next_handle + 1,
    {
        let handle = self.next_handle;
        self.next_handle = self.next_handle + 1;
        handle
    }
}

} // verus!
