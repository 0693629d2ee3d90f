use carambolage::controller::Controller;
use carambolage::controller::ControllerLayout;
use carambolage::controller::KeyState;
use carambolage::Fx;

fn keys(forward: bool, backward: bool, left: bool, right: bool, boost: bool) -> KeyState {
    KeyState { forward, backward, left, right, boost }
}

#[test]
fn press_and_release_edges_drive_the_goal() {
    let mut c = Controller::new(false, &ControllerLayout::WASD);
    assert_eq!(c.get_x_axis().raw, 0);
    assert_eq!(c.get_y_axis().raw, 0);

    c.process_input(&keys(true, false, false, false, false), Fx { raw: 167 });
    assert_eq!(c.get_y_axis().raw, 10_000);

    // Holding the key is not a new edge: the goal stays.
    c.process_input(&keys(true, false, false, false, false), Fx { raw: 167 });
    assert_eq!(c.get_y_axis().raw, 10_000);

    c.process_input(&keys(false, false, false, false, false), Fx { raw: 167 });
    assert_eq!(c.get_y_axis().raw, 0);

    c.process_input(&keys(false, true, true, false, false), Fx { raw: 167 });
    assert_eq!(c.get_y_axis().raw, -10_000);
    assert_eq!(c.get_x_axis().raw, -10_000);
}

#[test]
fn smoothed_axis_approaches_the_goal() {
    let mut c = Controller::new(true, &ControllerLayout::Arrows);
    // dt = 0.1 s at rate 5 gives an interpolation factor of one half.
    c.process_input(&keys(true, false, false, false, false), Fx { raw: 1_000 });
    assert_eq!(c.axis_goal.y.raw, 10_000);
    assert_eq!(c.get_y_axis().raw, 5_000);
    c.process_input(&keys(true, false, false, false, false), Fx { raw: 1_000 });
    assert_eq!(c.get_y_axis().raw, 7_500);
}

#[test]
fn axis_stays_within_one_unit() {
    let mut c = Controller::new(true, &ControllerLayout::WASD);
    let patterns = [
        keys(true, false, false, true, true),
        keys(true, true, true, true, false),
        keys(false, false, false, false, false),
        keys(false, true, true, false, true),
        keys(true, false, true, false, false),
    ];
    for round in 0..50 {
        let k = patterns[round % patterns.len()];
        // Huge time steps clamp the interpolation factor at one.
        c.process_input(&k, Fx::from_units((round as i64) * 7));
        let gx = c.axis_goal.x.raw;
        let gy = c.axis_goal.y.raw;
        assert!(gx == -10_000 || gx == 0 || gx == 10_000);
        assert!(gy == -10_000 || gy == 0 || gy == 10_000);
        assert!(-10_000 <= c.get_x_axis().raw && c.get_x_axis().raw <= 10_000);
        assert!(-10_000 <= c.get_y_axis().raw && c.get_y_axis().raw <= 10_000);
    }
}

#[test]
fn boost_follows_its_key_edges() {
    let mut c = Controller::new(false, &ControllerLayout::WASD);
    assert!(!c.get_boost());
    c.process_input(&keys(false, false, false, false, true), Fx { raw: 167 });
    assert!(c.get_boost());
    c.process_input(&keys(false, false, false, false, true), Fx { raw: 167 });
    assert!(c.get_boost());
    c.process_input(&keys(false, false, false, false, false), Fx { raw: 167 });
    assert!(!c.get_boost());
}
