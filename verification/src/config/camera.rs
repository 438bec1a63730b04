//! The camera settings, in thousandths.

use vstd::prelude::*;

verus! {

/// An inclusive band a camera quantity is clamped to.
#[derive(Debug, Clone, Copy, PartialEq, Eq, Structural)]
pub struct ZoomRange {
    pub start: i64,
    pub end: i64,
}

/// How the camera moves and zooms.  Lengths are thousandths of a world unit,
/// speeds thousandths of their engine value, and the field-of-view band is in
/// thousandths of a radian.
#[derive(Debug, Clone, Copy, PartialEq, Eq, Structural)]
pub struct CameraConfig {
    /// The height of the viewport in world units when the orthographic
    /// camera's scale is one.
    pub orthographic_viewport_height: i64,
    /// Clamp the orthographic camera's scale to this band.
    pub orthographic_zoom_range: ZoomRange,
    /// Multiply mouse wheel input by this factor on the orthographic camera.
    pub orthographic_zoom_speed: i64,
    /// Clamp the perspective camera's field of view to this band.
    pub perspective_zoom_range: ZoomRange,
    /// Multiply mouse wheel input by this factor on the perspective camera.
    pub perspective_zoom_speed: i64,
    /// How fast the camera pans across the map.
    pub movement_speed: i64,
}

} // verus!
