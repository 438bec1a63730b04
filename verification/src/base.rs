pub mod abilities;
pub mod buildings;
pub mod factions;
pub mod units;
