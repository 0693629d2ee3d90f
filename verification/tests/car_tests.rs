use carambolage::car::Car;
use carambolage::car::BOOST_FULL;
use carambolage::controller::Controller;
use carambolage::controller::ControllerLayout;
use carambolage::controller::KeyState;
use carambolage::Fx;
use carambolage::Vec3;

fn keys(forward: bool, backward: bool, left: bool, right: bool, boost: bool) -> KeyState {
    KeyState { forward, backward, left, right, boost }
}

fn boosting_controller() -> Controller {
    let mut c = Controller::new(false, &ControllerLayout::WASD);
    c.process_input(&keys(false, false, false, false, true), Fx { raw: 0 });
    assert!(c.get_boost());
    c
}

#[test]
fn boost_drains_thirty_per_second() {
    let mut car = Car::new(Vec3::zero(), Vec3::zero());
    assert_eq!(car.boost.raw, BOOST_FULL);
    let ct = boosting_controller();
    car.update(Fx::from_units(1), Some(ct));
    // One second of held boost at 30 per second: 100 -> 70.
    assert_eq!(car.boost.raw, 700_000);
}

#[test]
fn boost_never_goes_negative() {
    let mut car = Car::new(Vec3::zero(), Vec3::zero());
    let ct = boosting_controller();
    // Ten seconds of held boost would drain 300: the tank stops at 0.
    car.update(Fx::from_units(10), Some(ct));
    assert_eq!(car.boost.raw, 0);
    // And refills at 14 per second once the key is up.
    let mut idle = ct;
    idle.process_input(&keys(false, false, false, false, false), Fx { raw: 0 });
    assert!(!idle.get_boost());
    car.update(Fx::from_units(1), Some(idle));
    assert_eq!(car.boost.raw, 140_000);
}

#[test]
fn idle_car_never_moves() {
    let mut car = Car::new(Vec3::from_raw(-5_000, -5_000, 0), Vec3::from_raw(5_000, 5_000, 0));
    car.position = Vec3::from_raw(12_345, -67, 890);
    car.rotation = Vec3::from_raw(0, 0, 31_416);
    car.boost = Fx { raw: 425_000 };
    let before = car;
    for _ in 0..100 {
        car.update(Fx { raw: 167 }, None);
    }
    assert_eq!(car, before);
}

#[test]
fn full_throttle_moves_forward() {
    let mut car = Car::new(Vec3::zero(), Vec3::zero());
    let mut ct = Controller::new(false, &ControllerLayout::WASD);
    ct.process_input(&keys(true, false, false, false, false), Fx { raw: 0 });
    car.update(Fx::from_units(1), Some(ct));
    // Base speed 10 along +y for one second, yaw untouched at zero.
    assert_eq!(car.position, Vec3::from_raw(0, 100_000, 0));
    assert_eq!(car.rotation, Vec3::zero());
    assert_eq!(car.boost.raw, BOOST_FULL);
}

#[test]
fn steering_needs_throttle() {
    let mut car = Car::new(Vec3::zero(), Vec3::zero());
    let mut ct = Controller::new(false, &ControllerLayout::WASD);
    // Full right lock without throttle: steer is scaled by accel, so
    // the car must not pivot.
    ct.process_input(&keys(false, false, false, true, false), Fx { raw: 0 });
    car.update(Fx::from_units(1), Some(ct));
    assert_eq!(car.rotation, Vec3::zero());
    assert_eq!(car.position, Vec3::zero());
}

#[test]
fn zero_or_negative_dt_is_harmless() {
    let mut car = Car::new(Vec3::zero(), Vec3::zero());
    let mut ct = Controller::new(false, &ControllerLayout::WASD);
    ct.process_input(&keys(true, false, false, false, true), Fx { raw: 0 });
    car.update(Fx { raw: 0 }, Some(ct));
    assert_eq!(car.position, Vec3::zero());
    assert_eq!(car.boost.raw, BOOST_FULL);
    // A negative step runs the arithmetic backwards without panicking
    // and the boost tank still cannot leave [0, 100].
    car.update(Fx::from_units(-1), Some(ct));
    assert!(0 <= car.boost.raw && car.boost.raw <= BOOST_FULL);
}

#[test]
fn collider_is_a_quarter_of_the_bounds() {
    let car = Car::new(Vec3::from_raw(-20_000, -40_000, 0), Vec3::from_raw(20_000, 40_000, 10_000));
    assert_eq!(car.half_extents, Vec3::from_raw(10_000, 20_000, 2_500));
}

#[test]
fn model_and_color_names() {
    assert_eq!(Car::model_from_id(3), "c03.obj");
    assert_eq!(Car::model_from_id(0), "c01.obj");
    assert_eq!(Car::model_from_id(99), "c01.obj");
    assert_eq!(Car::color_from_id(6), "car-red.png");
    assert_eq!(Car::color_from_id(42), "car-blue.png");
}
