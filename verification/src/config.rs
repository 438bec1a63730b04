pub mod camera;
pub mod terrain;
