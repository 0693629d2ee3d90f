use carambolage::camera::Camera;
use carambolage::camera::CAMERA_HEIGHT_MAX;
use carambolage::camera::CAMERA_HEIGHT_MIN;
use carambolage::Fx;
use carambolage::Vec3;

#[test]
fn requested_heights_are_clamped() {
    let mut cam = Camera::new();
    cam.move_to_height(Fx::from_units(-50));
    assert_eq!(cam.height_goal.raw, CAMERA_HEIGHT_MIN);
    cam.update(Fx::from_units(100));
    assert!(CAMERA_HEIGHT_MIN <= cam.height.raw && cam.height.raw <= CAMERA_HEIGHT_MAX);

    cam.move_to_height(Fx::from_units(9_999));
    assert_eq!(cam.height_goal.raw, CAMERA_HEIGHT_MAX);
    cam.update(Fx::from_units(100));
    assert!(CAMERA_HEIGHT_MIN <= cam.height.raw && cam.height.raw <= CAMERA_HEIGHT_MAX);

    cam.move_to_height(Fx::from_units(42));
    assert_eq!(cam.height_goal.raw, 420_000);
}

#[test]
fn smoothing_halves_the_gap_at_the_right_rate() {
    let mut cam = Camera::new();
    // speed 1.8 with dt = 1/1.8... use dt such that factor is exact:
    // factor = speed * dt; dt = 0.5 gives factor 0.9.
    cam.move_to_height(Fx::from_units(140));
    cam.update(Fx { raw: 5_000 });
    // height: 50 + (140 - 50) * 0.9 = 131.
    assert_eq!(cam.height.raw, 1_310_000);
    assert_eq!(cam.position.z, cam.height);
}

#[test]
fn snapping_jumps_to_the_goal() {
    let mut cam = Camera::new();
    cam.is_smooth_pan = false;
    cam.is_smooth_zoom = false;
    cam.move_to_focus(Vec3::from_raw(30_000, -20_000, 0));
    cam.move_to_height(Fx::from_units(77));
    cam.update(Fx { raw: 1 });
    assert_eq!(cam.focus, Vec3::from_raw(30_000, -20_000, 0));
    assert_eq!(cam.height.raw, 770_000);
    assert_eq!(cam.position, Vec3::from_raw(30_000, -20_000, 770_000));
}

#[test]
fn instant_setters_move_camera_at_once() {
    let mut cam = Camera::new();
    cam._set_focus(Vec3::from_raw(10_000, 0, 0));
    assert_eq!(cam.focus, Vec3::from_raw(10_000, 0, 0));
    assert_eq!(cam.position, Vec3::from_raw(10_000, 0, 500_000));
    cam._set_height(Fx::from_units(1_000_000));
    assert_eq!(cam.height.raw, CAMERA_HEIGHT_MAX);
    assert_eq!(cam.height_goal.raw, CAMERA_HEIGHT_MAX);
}
