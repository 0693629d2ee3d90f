use carambolage::sim::Car;
use carambolage::sim::Scene;
use carambolage::Fx;
use carambolage::Vec2;

#[test]
fn go_car_1() {
    let mut car = Car {
        pos: Vec2 { x: Fx { raw: 0 }, y: Fx { raw: 0 } },
        vel: Vec2 { x: Fx::from_units(1), y: Fx { raw: 0 } },
        force: Vec2 { x: Fx { raw: 0 }, y: Fx { raw: 0 } },
        mass: Fx::from_units(1),
    };
    car.run(Fx::from_units(1));
    assert_eq!(car.pos, Vec2 { x: Fx::from_units(1), y: Fx { raw: 0 } });
}

#[test]
fn go_car_2() {
    let mut car = Car {
        pos: Vec2 { x: Fx { raw: 0 }, y: Fx { raw: 0 } },
        vel: Vec2 { x: Fx { raw: 0 }, y: Fx { raw: 0 } },
        force: Vec2 { x: Fx::from_units(1), y: Fx { raw: 0 } },
        mass: Fx::from_units(1),
    };
    car.run(Fx::from_units(2));
    assert_eq!(car.pos, Vec2 { x: Fx::from_units(2), y: Fx { raw: 0 } });
    assert_eq!(car.vel, Vec2 { x: Fx::from_units(2), y: Fx { raw: 0 } });
}

#[test]
fn sim_scene_line_of_cars() {
    let mut scene = Scene::new(3);
    assert_eq!(scene.cars.len(), 3);
    assert_eq!(scene.cars[2].pos.x, Fx::from_units(2));
    // A one-second step moves nothing: the cars rest with zero force.
    scene.run(Fx::from_units(1));
    assert_eq!(scene.cars[0].pos.x, Fx { raw: 0 });
    assert_eq!(scene.cars[2].pos.x, Fx::from_units(2));
}
