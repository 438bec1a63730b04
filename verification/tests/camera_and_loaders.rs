use rts_game_rs::asset_loaders::{GenericYamlAssetLoader, YamlLoaderSettings};
use rts_game_rs::camera::{movement_keyboard, zoom_orthographic, zoom_perspective};
use rts_game_rs::config::camera::{CameraConfig, ZoomRange};
use rts_game_rs::config::terrain::TerrainConfig as FixedTerrainConfig;
use rts_game_rs::geometry::{distance_squared, rect_between, PlanePos, ScreenPos, ScreenRect};

fn camera_config() -> CameraConfig {
    CameraConfig {
        orthographic_viewport_height: 5000,
        orthographic_zoom_range: ZoomRange { start: 50, end: 10_000 },
        orthographic_zoom_speed: 1,
        perspective_zoom_range: ZoomRange { start: 628, end: 2942 },
        perspective_zoom_speed: 50,
        movement_speed: 10_000,
    }
}

#[test]
fn scrolling_up_zooms_the_orthographic_camera_in() {
    // One full scroll line up shrinks the scale by a thousandth of itself.
    assert_eq!(zoom_orthographic(1000, 1000, &camera_config()), 999);
    // Scrolling down grows it.
    assert_eq!(zoom_orthographic(1000, -1000, &camera_config()), 1001);
    // No scroll leaves it alone.
    assert_eq!(zoom_orthographic(1000, 0, &camera_config()), 1000);
}

#[test]
fn the_orthographic_zoom_respects_its_band() {
    let config = camera_config();
    assert_eq!(zoom_orthographic(50, 1_000_000, &config), 50);
    assert_eq!(zoom_orthographic(10_000, -1_000_000, &config), 10_000);
}

#[test]
fn the_perspective_zoom_shifts_the_field_of_view() {
    let config = camera_config();
    assert_eq!(zoom_perspective(1000, 1000, &config), 950);
    assert_eq!(zoom_perspective(1000, -1000, &config), 1050);
    assert_eq!(zoom_perspective(640, 1_000_000, &config), 628);
}

#[test]
fn panning_slows_down_when_zoomed_in() {
    let config = camera_config();
    let zoomed = movement_keyboard(&config, Some(500), true, false, false, false, 100);
    assert_eq!(zoomed.speed, 5000);
    assert_eq!(zoomed.forward, 500);
    assert_eq!(zoomed.left, 0);
    let plain = movement_keyboard(&config, None, false, true, false, true, 100);
    assert_eq!(plain.speed, 10_000);
    assert_eq!(plain.forward, -1000);
    assert_eq!(plain.left, -1000);
}

#[test]
fn opposite_arrows_cancel() {
    let config = camera_config();
    let pan = movement_keyboard(&config, None, true, true, true, false, 100);
    assert_eq!(pan.forward, 0);
    assert_eq!(pan.left, 1000);
}

#[test]
fn squared_distance_is_exact() {
    let a = PlanePos { x: 3, z: 4 };
    let b = PlanePos { x: 0, z: 0 };
    assert_eq!(distance_squared(a, b), 25);
}

#[test]
fn rectangles_span_their_corners() {
    let r = rect_between(ScreenPos { x: 10, y: 90 }, ScreenPos { x: 30, y: 20 });
    assert_eq!(r, ScreenRect { left: 10, top: 20, width: 20, height: 70 });
}

#[test]
fn the_yaml_loader_claims_both_extensions() {
    let loader: GenericYamlAssetLoader<FixedTerrainConfig> = GenericYamlAssetLoader::default();
    assert_eq!(loader.extensions(), vec!["yaml", "yml"]);
    assert_eq!(GenericYamlAssetLoader::<FixedTerrainConfig>::new().extensions().len(), 2);
    assert_eq!(YamlLoaderSettings::default(), YamlLoaderSettings);
}

#[test]
fn the_plane_config_keeps_its_extents() {
    let config = FixedTerrainConfig { x: 5000, y: 4000 };
    assert_eq!(config.x, 5000);
    assert_eq!(config.y, 4000);
}
