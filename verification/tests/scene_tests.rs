use carambolage::camera::Camera;
use carambolage::camera::CAMERA_HEIGHT_MIN;
use carambolage::car::Car;
use carambolage::car::BOOST_FULL;
use carambolage::scene::Contact;
use carambolage::scene::ContactReport;
use carambolage::scene::PairContact;
use carambolage::scene::Scene;
use carambolage::Fx;
use carambolage::Vec3;

fn parked_car(x_raw: i64) -> Car {
    let mut car = Car::new(Vec3::zero(), Vec3::zero());
    car.position = Vec3::from_raw(x_raw, 0, 0);
    car
}

#[test]
fn two_idle_cars_one_tick() {
    // Two cars at (-1.5, 0, 0) and (1.5, 0, 0), zero-sized colliders,
    // no controllers, no contacts, one tick of 1/60 s.
    let mut scene = Scene {
        cars: vec![parked_car(-15_000), parked_car(15_000)],
        camera: Camera::new(),
    };
    let dt = Fx { raw: 167 };
    let report = ContactReport::empty(2);
    scene.update(dt, &[], true, &report);

    // Positions are unchanged but for the gravity settle on z:
    // 0.81 * dt = 8100 * 167 / 10000 = 135 (in raw steps).
    assert_eq!(scene.cars[0].position, Vec3::from_raw(-15_000, 0, -135));
    assert_eq!(scene.cars[1].position, Vec3::from_raw(15_000, 0, -135));

    // The camera aims at the centroid and zooms to spread * 1.2 + 10:
    // the spread is 3 units along x, so the goal is 13.6.
    assert_eq!(scene.camera.focus_goal, Vec3::from_raw(0, 0, -135));
    assert_eq!(scene.camera.height_goal.raw, 136_000);
}

#[test]
fn empty_roster_camera_goes_to_origin() {
    let mut scene = Scene { cars: vec![], camera: Camera::new() };
    let report = ContactReport::empty(0);
    scene.update(Fx { raw: 167 }, &[], true, &report);
    assert_eq!(scene.camera.focus_goal, Vec3::zero());
    // No roster: the height goal keeps its default.
    assert_eq!(scene.camera.height_goal.raw, 500_000);
}

#[test]
fn pair_correction_conserves_the_centroid() {
    let mut scene = Scene {
        cars: vec![parked_car(-4_000), parked_car(4_000)],
        camera: Camera::new(),
    };
    // A contact with witness points 0.8 apart along x.
    let contact = Contact {
        world1: Vec3::from_raw(4_000, 0, 0),
        world2: Vec3::from_raw(-4_000, 0, 0),
    };
    let report = ContactReport {
        pairs: vec![PairContact { first: 0, second: 1, contact }],
        ground: vec![None, None],
        border: vec![None, None],
    };
    let before_sum = scene.cars[0].position.x.raw + scene.cars[1].position.x.raw;
    // dt of zero isolates the pair pass: no gravity settle.
    scene.update_collisions(Fx { raw: 0 }, &report);

    // dir = world1 - world2 = 0.8; each car moves half of it.
    assert_eq!(scene.cars[0].position.x.raw, -8_000);
    assert_eq!(scene.cars[1].position.x.raw, 8_000);
    let after_sum = scene.cars[0].position.x.raw + scene.cars[1].position.x.raw;
    assert_eq!(before_sum, after_sum);
}

#[test]
fn ground_contact_is_corrected_in_full() {
    let mut scene = Scene { cars: vec![parked_car(0)], camera: Camera::new() };
    let report = ContactReport {
        pairs: vec![],
        ground: vec![Some(Contact {
            world1: Vec3::from_raw(0, 0, -3_000),
            world2: Vec3::from_raw(0, 0, 0),
        })],
        border: vec![None],
    };
    scene.update_collisions(Fx { raw: 167 }, &report);
    // Gravity settle (-135) first, then the full penetration vector
    // (0, 0, -0.3) subtracted: z ends at -135 + 3000 = 2865.
    assert_eq!(scene.cars[0].position, Vec3::from_raw(0, 0, 2_865));
}

#[test]
fn reset_places_cars_on_their_slots() {
    let mut scene = Scene {
        cars: vec![parked_car(77), parked_car(-42), parked_car(5)],
        camera: Camera::new(),
    };
    scene.cars[1].boost = Fx { raw: 10 };
    scene.cars[2].rotation = Vec3::from_raw(0, 0, 9_999);
    scene.reset_cars();
    assert_eq!(scene.cars[0].position, Vec3::from_raw(-11_500, 0, 5_000));
    assert_eq!(scene.cars[1].position, Vec3::from_raw(11_500, -17_000, 5_000));
    assert_eq!(scene.cars[2].position, Vec3::from_raw(-11_500, -34_000, 5_000));
    for car in &scene.cars {
        assert_eq!(car.boost.raw, BOOST_FULL);
        assert_eq!(car.rotation, Vec3::zero());
    }
}

#[test]
fn scene_new_resets_the_roster() {
    let scene = Scene::new(vec![parked_car(123), parked_car(456)]);
    assert_eq!(scene.cars[0].position, Vec3::from_raw(-11_500, 0, 5_000));
    assert_eq!(scene.cars[1].position, Vec3::from_raw(11_500, -17_000, 5_000));
}

#[test]
fn menu_mode_forces_the_overview() {
    let mut scene = Scene {
        cars: vec![parked_car(-15_000), parked_car(15_000)],
        camera: Camera::new(),
    };
    scene.camera.is_smooth_pan = false;
    scene.camera.is_smooth_zoom = false;
    let report = ContactReport::empty(2);
    scene.update(Fx { raw: 167 }, &[], false, &report);
    // The camera is aimed at the origin at the lowest height, with the
    // smoothing flags forced on for the tick and restored afterwards.
    assert_eq!(scene.camera.focus_goal, Vec3::zero());
    assert_eq!(scene.camera.height_goal.raw, CAMERA_HEIGHT_MIN);
    assert!(!scene.camera.is_smooth_pan);
    assert!(!scene.camera.is_smooth_zoom);
}
