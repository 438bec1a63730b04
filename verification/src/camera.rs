//! What the camera decides each frame: how far the mouse wheel zooms it and
//! how fast the arrow keys pan it.
//!
//! The engine applies the results to its floating-point transform; the
//! normalised horizontal axes the pan moves along are its affair.

use vstd::prelude::*;

use crate::config::camera::CameraConfig;
use crate::geometry::{clamp_i64, div_trunc, lemma_mul_bounds, spec_clamp, COORD_LIMIT};

verus! {

/// The settings and inputs the zoom works with stay modest: the zoom speed
/// within one engine unit, one frame's scroll within a thousand lines, the
/// current value and the band within the world bound.
pub open spec fn zoom_inputs_ok(current: int, delta_y: int, speed: int, range_start: int, range_end: int) -> bool {
    &&& -COORD_LIMIT <= current <= COORD_LIMIT
    &&& -1_000_000 <= delta_y <= 1_000_000
    &&& 0 <= speed <= 1000
    &&& -COORD_LIMIT <= range_start <= range_end <= COORD_LIMIT
}

/// One scroll step of the orthographic camera.  Scrolling up zooms in, so
/// the wheel delta is negated; a delta of zero leaves the scale untouched,
/// and the scale changes multiplicatively before it is clamped to the
/// configured band.
pub fn zoom_orthographic(scale: i64, mouse_wheel_delta_y: i64, camera_settings: &CameraConfig) -> (r: i64)
    requires
        zoom_inputs_ok(
            scale as int,
            mouse_wheel_delta_y as int,
            camera_settings.orthographic_zoom_speed as int,
            camera_settings.orthographic_zoom_range.start as int,
            camera_settings.orthographic_zoom_range.end as int,
        ),
    ensures
        r == spec_clamp(
            div_trunc(scale * (1_000_000 - mouse_wheel_delta_y * camera_settings.orthographic_zoom_speed), 1_000_000),
            camera_settings.orthographic_zoom_range.start as int,
            camera_settings.orthographic_zoom_range.end as int,
        ),
{
    proof {
        lemma_mul_bounds(
            mouse_wheel_delta_y as int,
            camera_settings.orthographic_zoom_speed as int,
            1_000_000,
            1000,
        );
        lemma_mul_bounds(
            scale as int,
            1_000_000 - mouse_wheel_delta_y * camera_settings.orthographic_zoom_speed,
            COORD_LIMIT as int,
            2_000_000_000,
        );
    }
    let delta_zoom: i64 = 0 - mouse_wheel_delta_y * camera_settings.orthographic_zoom_speed;
    let multiplicative_zoom: i64 = 1_000_000 + delta_zoom;
    let scaled: i64 = (scale * multiplicative_zoom) / 1_000_000;
    clamp_i64(
        scaled,
        camera_settings.orthographic_zoom_range.start,
        camera_settings.orthographic_zoom_range.end,
    )
}

/// One scroll step of the perspective camera.  Scrolling up zooms in, so the
/// wheel delta is negated; the field of view changes additively before it is
/// clamped to the configured band.
pub fn zoom_perspective(fov: i64, mouse_wheel_delta_y: i64, camera_settings: &CameraConfig) -> (r: i64)
    requires
        zoom_inputs_ok(
            fov as int,
            mouse_wheel_delta_y as int,
            camera_settings.perspective_zoom_speed as int,
            camera_settings.perspective_zoom_range.start as int,
            camera_settings.perspective_zoom_range.end as int,
        ),
    ensures
        r == spec_clamp(
            fov + div_trunc(-(mouse_wheel_delta_y * camera_settings.perspective_zoom_speed), 1000),
            camera_settings.perspective_zoom_range.start as int,
            camera_settings.perspective_zoom_range.end as int,
        ),
{
    proof {
        lemma_mul_bounds(
            mouse_wheel_delta_y as int,
            camera_settings.perspective_zoom_speed as int,
            1_000_000,
            1000,
        );
    }
    let delta_zoom: i64 = (0 - mouse_wheel_delta_y * camera_settings.perspective_zoom_speed) / 1000;
    clamp_i64(
        fov + delta_zoom,
        camera_settings.perspective_zoom_range.start,
        camera_settings.perspective_zoom_range.end,
    )
}

/// How far one frame's key presses pan the camera: the step along the
/// camera's forward axis and along its left axis, in thousandths of a world
/// unit, signed by which arrow keys are held.
#[derive(Debug, Clone, Copy, PartialEq, Eq, Structural)]
pub struct PanDecision {
    pub speed: i64,
    pub forward: i64,
    pub left: i64,
}

/// One frame of keyboard panning.  Zoomed in, the camera slows down in step
/// with the orthographic scale; the up and down arrows drive the forward
/// axis, the left and right arrows the left axis, and opposite keys cancel.
pub fn movement_keyboard(
    camera_config: &CameraConfig,
    orthographic_scale: Option<i64>,
    up_pressed: bool,
    down_pressed: bool,
    left_pressed: bool,
    right_pressed: bool,
    delta_ms: u64,
) -> (r: PanDecision)
    requires
        0 <= camera_config.movement_speed <= 1_000_000,
        orthographic_scale matches Some(s) ==> 0 <= s <= 10_000_000,
        delta_ms <= 1_000_000,
    ensures
        r.speed == match orthographic_scale {
            Option::Some(s) => div_trunc(camera_config.movement_speed * s, 1000),
            Option::None => camera_config.movement_speed as int,
        },
        r.forward == if up_pressed == down_pressed {
            0int
        } else if up_pressed {
            div_trunc(r.speed * delta_ms, 1000)
        } else {
            -div_trunc(r.speed * delta_ms, 1000)
        },
        r.left == if left_pressed == right_pressed {
            0int
        } else if left_pressed {
            div_trunc(r.speed * delta_ms, 1000)
        } else {
            -div_trunc(r.speed * delta_ms, 1000)
        },
{
    let speed: i64 = match orthographic_scale {
        Option::Some(s) => {
            proof {
                lemma_mul_bounds(camera_config.movement_speed as int, s as int, 1_000_000, 10_000_000);
            }
            (camera_config.movement_speed * s) / 1000
        },
        Option::None => camera_config.movement_speed,
    };
    proof {
        lemma_mul_bounds(speed as int, delta_ms as int, 10_000_000_000, 1_000_000);
    }
    let step: i64 = (speed * (delta_ms as i64)) / 1000;
    let forward: i64 = if up_pressed && !down_pressed {
        step
    } else if down_pressed && !up_pressed {
        0 - step
    } else {
        0
    };
    let left: i64 = if left_pressed && !right_pressed {
        step
    } else if right_pressed && !left_pressed {
        0 - step
    } else {
        0
    };
    PanDecision { speed, forward, left }
}

} // verus!
