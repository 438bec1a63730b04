//! Decision core of a real-time-strategy game prototype.
//!
//! The surrounding game runs on an entity-component-system engine that owns
//! rendering, physics, assets and input.  This library holds everything the
//! game itself decides: the building placement state machine, the unit
//! selection machines, the entity factories and the menu and game-state
//! transitions.  The engine side feeds events in as plain values and carries
//! the returned actions out.
//!
//! Coordinates, sizes and speeds are fixed-point integers: one world unit is
//! `MILLI` of these, so the engine's floating-point values round to the
//! nearest thousandth when they cross the boundary.

use vstd::prelude::*;

pub mod asset_loaders;
pub mod base;
pub mod camera;
pub mod color;
pub mod config;
pub mod game_state;
pub mod game_states;
pub mod geometry;
pub mod input;
pub mod menus;
pub mod rome_buildings;
pub mod rome_units;
pub mod start_menu;
pub mod states;
pub mod terrain;
pub mod units;

verus! {

/// Fixed-point scale: the number of coordinate steps in one world unit.
pub const MILLI: i64 = 1000;

} // verus!
