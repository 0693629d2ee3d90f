//! The scene: the car roster and the camera, advanced together each tick.
//!
//! The per-tick order is fixed: every car integrates its kinematics, then
//! all collision corrections are applied, then the camera retargets. The
//! geometric contact tests themselves run outside the simulation, against
//! the level's shapes, and reach it as a report of witness points taken
//! at the post-kinematics poses; this module owns everything the report
//! implies: the symmetric half-push between two cars, the full push out
//! of the ground and the border, the gravity settle bias, and their
//! order.
use crate::camera::Camera;
use crate::camera::CAMERA_HEIGHT_MIN;
use crate::car::Car;
use crate::car::BOOST_FULL;
use crate::controller::Controller;
use crate::fx::Fx;
use crate::fx::FX_MAX;
use crate::vec::Vec3;
use vstd::prelude::*;

verus! {

/// Downward settle applied to every car before the ground test:
/// 0.81 units per second.
pub const GRAVITY_BIAS: i64 = 8_100;

/// Each car of a penetrating pair is pushed by half the contact vector.
pub const PAIR_PUSH: i64 = 5_000;

/// Camera spread factor: height goal grows 1.2 times the roster spread.
pub const CAMERA_SPREAD: i64 = 12_000;

/// Camera base height over the roster: 10 units.
pub const CAMERA_BASE: i64 = 100_000;

/// Starting slot spacing: 1.15 units of lateral offset, alternating.
pub const SLOT_LATERAL: i64 = 11_500;

/// Starting slot spacing: 1.7 units backward per roster index.
pub const SLOT_LONGITUDINAL: i64 = 17_000;

/// Starting slot height: half a unit over the ground.
pub const SLOT_HEIGHT: i64 = 5_000;

/// A contact found by the collision query: one witness point on each of
/// the two tested shapes, in world space.
#[derive(Clone, Copy, PartialEq, Eq, Structural, Debug)]
pub struct Contact {
    pub world1: Vec3,
    pub world2: Vec3,
}

impl Contact {
    pub open spec fn wf(self) -> bool {
        self.world1.wf() && self.world2.wf()
    }

    /// The separation direction: from the second witness to the first.
    pub open spec fn spec_dir(self) -> Vec3 {
        self.world1.spec_minus(self.world2)
    }
}

pub open spec fn opt_contact_wf(o: Option<Contact>) -> bool {
    match o {
        Option::None => true,
        Option::Some(c) => c.wf(),
    }
}

/// A contact between the cars at two roster indexes.
#[derive(Clone, Copy, PartialEq, Eq, Structural, Debug)]
pub struct PairContact {
    pub first: usize,
    pub second: usize,
    pub contact: Contact,
}

impl PairContact {
    pub open spec fn wf(self, n: int) -> bool {
        self.first < self.second < n && self.contact.wf()
    }
}

/// All contacts found for one tick, tested at the post-kinematics poses:
/// the car pairs that touch, in the order they were tested, and per car
/// the optional ground and border contacts.
#[derive(Debug)]
pub struct ContactReport {
    pub pairs: Vec<PairContact>,
    pub ground: Vec<Option<Contact>>,
    pub border: Vec<Option<Contact>>,
}

impl ContactReport {
    pub open spec fn wf(self, n: int) -> bool {
        &&& self.ground@.len() == n
        &&& self.border@.len() == n
        &&& forall|k: int|
            0 <= k < self.pairs@.len() ==> (#[trigger] self.pairs@[k]).wf(n)
        &&& forall|i: int| 0 <= i < n ==> opt_contact_wf(#[trigger] self.ground@[i])
        &&& forall|i: int| 0 <= i < n ==> opt_contact_wf(#[trigger] self.border@[i])
    }

    /// A report with no contacts at all for a roster of `n` cars.
    pub fn empty(n: usize) -> (r: ContactReport)
        ensures
            r.wf(n as int),
            r.pairs@.len() == 0,
            forall|i: int| 0 <= i < n ==> #[trigger] r.ground@[i] is None,
            forall|i: int| 0 <= i < n ==> #[trigger] r.border@[i] is None,
    {
        let mut ground: Vec<Option<Contact>> = Vec::new();
        let mut border: Vec<Option<Contact>> = Vec::new();
        let mut i: usize = 0;
        while i < n
            invariant
                i <= n,
                ground@.len() == i,
                border@.len() == i,
                forall|j: int| 0 <= j < i ==> #[trigger] ground@[j] is None,
                forall|j: int| 0 <= j < i ==> #[trigger] border@[j] is None,
            decreases n - i,
        {
            ground.push(Option::None);
            border.push(Option::None);
            i = i + 1;
        }
        ContactReport { pairs: Vec::new(), ground, border }
    }
}

/// One symmetric pair correction: each car of the pair is pushed half
/// the contact vector apart, the first against it, the second along it.
pub open spec fn spec_apply_pair(cars: Seq<Car>, pc: PairContact) -> Seq<Car>
    recommends
        pc.wf(cars.len() as int),
{
    let half = pc.contact.spec_dir().spec_scale(Fx { raw: PAIR_PUSH });
    let a = cars[pc.first as int];
    let b = cars[pc.second as int];
    cars.update(
        pc.first as int,
        Car { position: a.position.spec_minus(half), ..a },
    ).update(pc.second as int, Car { position: b.position.spec_plus(half), ..b })
}

/// All pair corrections of a tick, applied in report order.
pub open spec fn spec_apply_pairs(cars: Seq<Car>, pairs: Seq<PairContact>) -> Seq<Car>
    decreases pairs.len(),
{
    if pairs.len() == 0 {
        cars
    } else {
        spec_apply_pair(spec_apply_pairs(cars, pairs.drop_last()), pairs.last())
    }
}

/// One car's level pass: the gravity settle on z, then the full push out
/// of the ground, then the full push out of the border, in that order.
pub open spec fn spec_level_one(
    car: Car,
    dt: Fx,
    g: Option<Contact>,
    b: Option<Contact>,
) -> Car {
    let settled = Vec3 {
        z: car.position.z.spec_minus(dt.spec_times(Fx { raw: GRAVITY_BIAS })),
        ..car.position
    };
    let grounded = match g {
        Option::None => settled,
        Option::Some(c) => settled.spec_minus(c.spec_dir()),
    };
    let bordered = match b {
        Option::None => grounded,
        Option::Some(c) => grounded.spec_minus(c.spec_dir()),
    };
    Car { position: bordered, ..car }
}

/// The collision pass over the whole roster: every pair correction
/// first, then every car's level pass.
pub open spec fn spec_collisions(
    cars: Seq<Car>,
    dt: Fx,
    report: ContactReport,
) -> Seq<Car> {
    let paired = spec_apply_pairs(cars, report.pairs@);
    Seq::new(paired.len(), |i: int| spec_level_one(paired[i], dt, report.ground@[i], report.border@[i]))
}

pub open spec fn all_cars_wf(cars: Seq<Car>) -> bool {
    forall|i: int| 0 <= i < cars.len() ==> (#[trigger] cars[i]).wf()
}

/// Pair corrections keep every car well formed and touch no car outside
/// the pair.
proof fn lemma_apply_pair_wf(cars: Seq<Car>, pc: PairContact)
    requires
        all_cars_wf(cars),
        pc.wf(cars.len() as int),
    ensures
        all_cars_wf(spec_apply_pair(cars, pc)),
        spec_apply_pair(cars, pc).len() == cars.len(),
{
}

proof fn lemma_apply_pairs_wf(cars: Seq<Car>, pairs: Seq<PairContact>)
    requires
        all_cars_wf(cars),
        forall|k: int| 0 <= k < pairs.len() ==> (#[trigger] pairs[k]).wf(cars.len() as int),
    ensures
        all_cars_wf(spec_apply_pairs(cars, pairs)),
        spec_apply_pairs(cars, pairs).len() == cars.len(),
    decreases pairs.len(),
{
    if pairs.len() > 0 {
        lemma_apply_pairs_wf(cars, pairs.drop_last());
        lemma_apply_pair_wf(spec_apply_pairs(cars, pairs.drop_last()), pairs.last());
    }
}

/// The scene: the car roster, the camera that follows it.
#[derive(Debug)]
pub struct Scene {
    pub cars: Vec<Car>,
    pub camera: Camera,
}

impl Scene {
    pub open spec fn wf(self) -> bool {
        all_cars_wf(self.cars@) && self.camera.wf()
    }

    /// Apply one tick's collision corrections from the contact report:
    /// all pair pushes in report order, then per car the gravity settle,
    /// the ground correction and the border correction.
    pub fn update_collisions(&mut self, dt: Fx, contacts: &ContactReport)
        requires
            old(self).wf(),
            dt.wf(),
            contacts.wf(old(self).cars@.len() as int),
        ensures
            final(self).cars@ == spec_collisions(old(self).cars@, dt, *contacts),
            final(self).camera == old(self).camera,
            final(self).wf(),
    {
        let ghost cars0 = self.cars@;
        let ghost cam0 = self.camera;
        let n = self.cars.len();
        let mut k: usize = 0;
        while k < contacts.pairs.len()
            invariant
                k <= contacts.pairs@.len(),
                contacts.wf(cars0.len() as int),
                self.cars@.len() == cars0.len(),
                all_cars_wf(cars0),
                all_cars_wf(self.cars@),
                self.cars@ == spec_apply_pairs(cars0, contacts.pairs@.take(k as int)),
                self.camera == cam0,
            decreases contacts.pairs@.len() - k,
        {
            let pc = contacts.pairs[k];
            assert(pc == contacts.pairs@[k as int]);
            assert(pc.wf(cars0.len() as int));
            let dir = pc.contact.world1.minus(pc.contact.world2);
            let half = dir.scale(Fx { raw: PAIR_PUSH });
            let mut a = self.cars[pc.first];
            a.position = a.position.minus(half);
            self.cars[pc.first] = a;
            let mut b = self.cars[pc.second];
            b.position = b.position.plus(half);
            self.cars[pc.second] = b;
            proof {
                let taken = contacts.pairs@.take(k as int);
                let taken1 = contacts.pairs@.take(k as int + 1);
                assert(taken1.drop_last() =~= taken);
                assert(taken1.last() == pc);
                assert(self.cars@ =~= spec_apply_pair(spec_apply_pairs(cars0, taken), pc));
                lemma_apply_pairs_wf(cars0, taken1);
            }
            k = k + 1;
        }
        proof {
            assert(contacts.pairs@.take(contacts.pairs@.len() as int) =~= contacts.pairs@);
        }
        let ghost paired = spec_apply_pairs(cars0, contacts.pairs@);
        let mut i: usize = 0;
        while i < n
            invariant
                i <= n,
                n == cars0.len(),
                dt.wf(),
                contacts.wf(cars0.len() as int),
                self.cars@.len() == n,
                paired.len() == n,
                all_cars_wf(paired),
                all_cars_wf(self.cars@),
                forall|j: int| i <= j < n ==> self.cars@[j] == paired[j],
                forall|j: int|
                    0 <= j < i ==> self.cars@[j] == spec_level_one(
                        paired[j],
                        dt,
                        contacts.ground@[j],
                        contacts.border@[j],
                    ),
                self.camera == cam0,
            decreases n - i,
        {
            let mut c = self.cars[i];
            let settle = dt.times(Fx { raw: GRAVITY_BIAS });
            c.position = Vec3 {
                x: c.position.x,
                y: c.position.y,
                z: c.position.z.minus(settle),
            };
            match contacts.ground[i] {
                Option::None => {},
                Option::Some(g) => {
                    c.position = c.position.minus(g.world1.minus(g.world2));
                },
            }
            match contacts.border[i] {
                Option::None => {},
                Option::Some(b) => {
                    c.position = c.position.minus(b.world1.minus(b.world2));
                },
            }
            self.cars[i] = c;
            i = i + 1;
        }
        proof {
            assert(self.cars@ =~= spec_collisions(cars0, dt, *contacts));
        }
    }
}

/// The roster positions summed in order, starting from the origin.
pub open spec fn spec_sum_positions(cars: Seq<Car>) -> Vec3
    decreases cars.len(),
{
    if cars.len() == 0 {
        Vec3::spec_zero()
    } else {
        spec_sum_positions(cars.drop_last()).spec_plus(cars.last().position)
    }
}

/// The componentwise minimum of the roster positions.
pub open spec fn spec_inf_positions(cars: Seq<Car>) -> Vec3
    recommends
        cars.len() > 0,
    decreases cars.len(),
{
    if cars.len() <= 1 {
        cars[0].position
    } else {
        spec_inf_positions(cars.drop_last()).spec_inf(cars.last().position)
    }
}

/// The componentwise maximum of the roster positions.
pub open spec fn spec_sup_positions(cars: Seq<Car>) -> Vec3
    recommends
        cars.len() > 0,
    decreases cars.len(),
{
    if cars.len() <= 1 {
        cars[0].position
    } else {
        spec_sup_positions(cars.drop_last()).spec_sup(cars.last().position)
    }
}

/// Where the camera ends the tick. In game with cars on the roster, the
/// focus goal moves to their centroid and the height goal to the roster
/// spread times the spread factor plus the base height; with an empty
/// roster the focus goal is the world origin and the height goal stays.
/// Out of game the camera is transiently forced to the menu overview
/// (origin, lowest height, smoothing on), with its own smoothing flags
/// restored afterward.
pub open spec fn spec_scene_camera(cars: Seq<Car>, cam: Camera, dt: Fx, is_ingame: bool) -> Camera {
    if is_ingame {
        if cars.len() == 0 {
            (Camera { focus_goal: Vec3::spec_zero(), ..cam }).spec_update(dt)
        } else {
            let centroid = spec_sum_positions(cars).spec_over_count(cars.len() as int);
            let spread = spec_sup_positions(cars).spec_minus(spec_inf_positions(cars)).spec_norm();
            let dist = spread.spec_times(Fx { raw: CAMERA_SPREAD }).spec_plus(
                Fx { raw: CAMERA_BASE },
            );
            let zoomed = Camera { height_goal: cam.spec_clamped_height(dist), ..cam };
            (Camera { focus_goal: centroid, ..zoomed }).spec_update(dt)
        }
    } else {
        let forced = Camera {
            is_smooth_zoom: true,
            is_smooth_pan: true,
            focus_goal: Vec3::spec_zero(),
            ..cam
        };
        let aimed = Camera {
            height_goal: forced.spec_clamped_height(Fx { raw: CAMERA_HEIGHT_MIN }),
            ..forced
        };
        let updated = aimed.spec_update(dt);
        Camera { is_smooth_zoom: cam.is_smooth_zoom, is_smooth_pan: cam.is_smooth_pan, ..updated }
    }
}

/// Every car advanced by its seat's controller; seats past the end of
/// the controller list leave their car idle.
pub open spec fn spec_control_pass(cars: Seq<Car>, dt: Fx, cs: Seq<Controller>) -> Seq<Car> {
    Seq::new(
        cars.len(),
        |i: int|
            cars[i].spec_step(
                dt,
                if i < cs.len() {
                    Option::Some(cs[i])
                } else {
                    Option::None
                },
            ),
    )
}

/// A car put back on its starting slot: full tank, zero yaw, and a
/// deterministic position from its roster index, alternating left and
/// right and moving one row back per index.
pub open spec fn spec_reset_car(car: Car, i: int) -> Car {
    Car {
        position: Vec3 {
            x: if i % 2 == 0 {
                Fx { raw: (-SLOT_LATERAL) as i64 }
            } else {
                Fx { raw: SLOT_LATERAL }
            },
            y: Fx::spec_new(-(SLOT_LONGITUDINAL as int) * i),
            z: Fx { raw: SLOT_HEIGHT },
        },
        rotation: Vec3::spec_zero(),
        boost: Fx { raw: BOOST_FULL },
        ..car
    }
}

impl Scene {
    /// Create a new scene over a fixed roster; every car starts reset on
    /// its slot and the camera with its defaults.
    pub fn new(cars: Vec<Car>) -> (r: Scene)
        requires
            all_cars_wf(cars@),
        ensures
            r.cars@ == Seq::new(cars@.len(), |i: int| spec_reset_car(cars@[i], i)),
            r.camera == Camera::spec_new(),
            r.wf(),
    {
        let mut scene = Scene { cars, camera: Camera::new() };
        scene.reset_cars();
        scene
    }

    /// Put every car back on its starting slot.
    pub fn reset_cars(&mut self)
        requires
            old(self).wf(),
        ensures
            final(self).cars@ == Seq::new(
                old(self).cars@.len(),
                |i: int| spec_reset_car(old(self).cars@[i], i),
            ),
            final(self).camera == old(self).camera,
            final(self).wf(),
    {
        let ghost cars0 = self.cars@;
        let ghost cam0 = self.camera;
        let n = self.cars.len();
        let mut i: usize = 0;
        while i < n
            invariant
                i <= n,
                n == cars0.len(),
                self.cars@.len() == n,
                all_cars_wf(cars0),
                all_cars_wf(self.cars@),
                forall|j: int| i <= j < n ==> self.cars@[j] == cars0[j],
                forall|j: int| 0 <= j < i ==> self.cars@[j] == spec_reset_car(cars0[j], j),
                self.camera == cam0,
            decreases n - i,
        {
            let mut c = self.cars[i];
            c.boost = Fx { raw: BOOST_FULL };
            c.rotation = Vec3::zero();
            let x = if i % 2 == 0 {
                Fx { raw: -SLOT_LATERAL }
            } else {
                Fx { raw: SLOT_LATERAL }
            };
            let y = if i > 58_823 {
                proof {
                    assert(-(SLOT_LONGITUDINAL as int) * (i as int) < -(FX_MAX as int));
                }
                Fx { raw: -FX_MAX }
            } else {
                Fx::new(-(SLOT_LONGITUDINAL * (i as i64)))
            };
            c.position = Vec3 { x, y, z: Fx { raw: SLOT_HEIGHT } };
            self.cars[i] = c;
            i = i + 1;
        }
        proof {
            assert(self.cars@ =~= Seq::new(cars0.len(), |j: int| spec_reset_car(cars0[j], j)));
        }
    }

    /// Retarget and advance the camera from the roster (or force the
    /// menu overview when not in game).
    pub fn update_scene_camera(&mut self, dt: Fx, is_ingame: bool)
        requires
            old(self).wf(),
            dt.wf(),
        ensures
            final(self).camera == spec_scene_camera(old(self).cars@, old(self).camera, dt, is_ingame),
            final(self).cars == old(self).cars,
            final(self).wf(),
    {
        let ghost cars0 = self.cars@;
        if is_ingame {
            let n = self.cars.len();
            if n == 0 {
                self.camera.move_to_focus(Vec3::zero());
                self.camera.update(dt);
            } else {
                let mut mn = self.cars[0].position;
                let mut mx = mn;
                let mut sum = Vec3::zero();
                let mut i: usize = 0;
                while i < n
                    invariant
                        i <= n,
                        0 < n == cars0.len(),
                        self.cars@ == cars0,
                        self.camera == old(self).camera,
                        all_cars_wf(cars0),
                        mn.wf(),
                        mx.wf(),
                        sum.wf(),
                        sum == spec_sum_positions(cars0.take(i as int)),
                        i == 0 ==> mn == cars0[0].position && mx == cars0[0].position,
                        i >= 1 ==> mn == spec_inf_positions(cars0.take(i as int)),
                        i >= 1 ==> mx == spec_sup_positions(cars0.take(i as int)),
                    decreases n - i,
                {
                    let p = self.cars[i].position;
                    sum = sum.plus(p);
                    mn = mn.inf(p);
                    mx = mx.sup(p);
                    proof {
                        let t1 = cars0.take(i as int + 1);
                        assert(t1.drop_last() =~= cars0.take(i as int));
                        assert(t1.last() == cars0[i as int]);
                        if i == 0 {
                            assert(t1.len() == 1);
                            assert(spec_inf_positions(t1) == t1[0].position);
                            assert(spec_sup_positions(t1) == t1[0].position);
                        }
                    }
                    i = i + 1;
                }
                proof {
                    assert(cars0.take(n as int) =~= cars0);
                }
                let centroid = sum.over_count(n);
                let spread = mx.minus(mn).norm();
                let dist = spread.times(Fx { raw: CAMERA_SPREAD }).plus(Fx { raw: CAMERA_BASE });
                self.camera.move_to_height(dist);
                self.camera.move_to_focus(centroid);
                self.camera.update(dt);
            }
        } else {
            let was_smooth_zoom = self.camera.is_smooth_zoom;
            let was_smooth_pan = self.camera.is_smooth_pan;
            self.camera.is_smooth_zoom = true;
            self.camera.is_smooth_pan = true;
            self.camera.move_to_focus(Vec3::zero());
            self.camera.move_to_height(Fx { raw: CAMERA_HEIGHT_MIN });
            self.camera.update(dt);
            self.camera.is_smooth_zoom = was_smooth_zoom;
            self.camera.is_smooth_pan = was_smooth_pan;
        }
    }

    /// One full tick: control application, then collision correction
    /// from the report, then the camera retarget, in that order. With an
    /// empty roster nothing moves and the camera focus goal is set to
    /// the world origin.
    pub fn update(
        &mut self,
        dt: Fx,
        controller: &[Controller],
        is_ingame: bool,
        contacts: &ContactReport,
    )
        requires
            old(self).wf(),
            dt.wf(),
            forall|k: int| 0 <= k < controller@.len() ==> (#[trigger] controller@[k]).wf(),
            contacts.wf(old(self).cars@.len() as int),
        ensures
            final(self).cars@ == spec_collisions(
                spec_control_pass(old(self).cars@, dt, controller@),
                dt,
                *contacts,
            ),
            final(self).camera == spec_scene_camera(
                spec_collisions(spec_control_pass(old(self).cars@, dt, controller@), dt, *contacts),
                old(self).camera,
                dt,
                is_ingame,
            ),
            final(self).wf(),
            is_ingame && old(self).cars@.len() == 0 ==> final(self).camera.focus_goal
                == Vec3::spec_zero(),
    {
        self.apply_controls(dt, controller);
        self.update_collisions(dt, contacts);
        self.update_scene_camera(dt, is_ingame);
    }

    /// Apply one tick of control to the roster: every seat with a bound
    /// controller advances its car, seats past the end of the controller
    /// list leave theirs idle. This is the first phase of a tick; a
    /// caller that must run the contact queries at the post-kinematics
    /// poses calls this, gathers its report, and then runs
    /// `update_collisions` and `update_scene_camera` itself.
    pub fn apply_controls(&mut self, dt: Fx, controller: &[Controller])
        requires
            old(self).wf(),
            dt.wf(),
            forall|k: int| 0 <= k < controller@.len() ==> (#[trigger] controller@[k]).wf(),
        ensures
            final(self).cars@ == spec_control_pass(old(self).cars@, dt, controller@),
            final(self).camera == old(self).camera,
            final(self).wf(),
    {
        let ghost cars0 = self.cars@;
        let ghost cam0 = self.camera;
        let n = self.cars.len();
        let mut id: usize = 0;
        while id < n
            invariant
                id <= n,
                n == cars0.len(),
                self.cars@.len() == n,
                dt.wf(),
                all_cars_wf(cars0),
                all_cars_wf(self.cars@),
                forall|k: int| 0 <= k < controller@.len() ==> (#[trigger] controller@[k]).wf(),
                forall|j: int| id <= j < n ==> self.cars@[j] == cars0[j],
                forall|j: int|
                    0 <= j < id ==> self.cars@[j] == cars0[j].spec_step(
                        dt,
                        if j < controller@.len() {
                            Option::Some(controller@[j])
                        } else {
                            Option::None
                        },
                    ),
                self.camera == cam0,
            decreases n - id,
        {
            let mut c = self.cars[id];
            if id < controller.len() {
                c.update(dt, Option::Some(controller[id]));
            } else {
                c.update(dt, Option::None);
            }
            self.cars[id] = c;
            id = id + 1;
        }
        proof {
            assert(self.cars@ =~= spec_control_pass(cars0, dt, controller@));
        }
    }
}

/// The collision pass moves cars and nothing else: every car keeps its
/// rotation, boost and collider extents through all pair and level
/// corrections.
pub proof fn lemma_collisions_move_positions_only(cars: Seq<Car>, dt: Fx, report: ContactReport)
    requires
        report.wf(cars.len() as int),
    ensures
        spec_collisions(cars, dt, report).len() == cars.len(),
        forall|i: int|
            0 <= i < cars.len() ==> {
                let r = #[trigger] spec_collisions(cars, dt, report)[i];
                r.rotation == cars[i].rotation && r.boost == cars[i].boost && r.half_extents
                    == cars[i].half_extents
            },
{
    lemma_apply_pairs_frame(cars, report.pairs@);
}

/// Pair corrections keep every field but the position, at every index.
proof fn lemma_apply_pairs_frame(cars: Seq<Car>, pairs: Seq<PairContact>)
    requires
        forall|k: int| 0 <= k < pairs.len() ==> (#[trigger] pairs[k]).wf(cars.len() as int),
    ensures
        spec_apply_pairs(cars, pairs).len() == cars.len(),
        forall|i: int|
            0 <= i < cars.len() ==> {
                let r = #[trigger] spec_apply_pairs(cars, pairs)[i];
                r.rotation == cars[i].rotation && r.boost == cars[i].boost && r.half_extents
                    == cars[i].half_extents
            },
    decreases pairs.len(),
{
    if pairs.len() > 0 {
        lemma_apply_pairs_frame(cars, pairs.drop_last());
    }
}

/// Collision symmetry: one pair correction conserves the componentwise
/// sum of the two positions, and moves their difference along the
/// contact direction: on every coordinate the difference changes by an
/// amount with the direction's sign and at most its magnitude. Holds
/// whenever neither push saturates the world range.
pub proof fn lemma_pair_correction_symmetric(cars: Seq<Car>, pc: PairContact)
    requires
        all_cars_wf(cars),
        pc.wf(cars.len() as int),
        no_push_saturation(cars, pc),
    ensures
        ({
            let r = spec_apply_pairs(cars, seq![pc]);
            let p0 = cars[pc.first as int].position;
            let q0 = cars[pc.second as int].position;
            let p1 = r[pc.first as int].position;
            let q1 = r[pc.second as int].position;
            &&& p1.x.raw + q1.x.raw == p0.x.raw + q0.x.raw
            &&& p1.y.raw + q1.y.raw == p0.y.raw + q0.y.raw
            &&& p1.z.raw + q1.z.raw == p0.z.raw + q0.z.raw
            &&& moved_along(q1.x.raw - p1.x.raw - (q0.x.raw - p0.x.raw), pc.contact.spec_dir().x.raw as int)
            &&& moved_along(q1.y.raw - p1.y.raw - (q0.y.raw - p0.y.raw), pc.contact.spec_dir().y.raw as int)
            &&& moved_along(q1.z.raw - p1.z.raw - (q0.z.raw - p0.z.raw), pc.contact.spec_dir().z.raw as int)
        }),
{
    let half = pc.contact.spec_dir().spec_scale(Fx { raw: PAIR_PUSH });
    assert(seq![pc].drop_last() =~= Seq::<PairContact>::empty());
    assert(seq![pc].last() == pc);
    assert(spec_apply_pairs(cars, seq![pc].drop_last()) == cars);
    assert(spec_apply_pairs(cars, seq![pc]) == spec_apply_pair(cars, pc));
    lemma_half_push(pc.contact.spec_dir().x.raw as int, half.x.raw as int);
    lemma_half_push(pc.contact.spec_dir().y.raw as int, half.y.raw as int);
    lemma_half_push(pc.contact.spec_dir().z.raw as int, half.z.raw as int);
}

/// A componentwise move `delta` follows direction `d`: same sign, and no
/// farther than `d` itself.
pub open spec fn moved_along(delta: int, d: int) -> bool {
    if d >= 0 {
        0 <= delta <= d
    } else {
        d <= delta <= 0
    }
}

/// Neither car of the pair is pushed outside the representable world
/// range by the half contact vector.
pub open spec fn no_push_saturation(cars: Seq<Car>, pc: PairContact) -> bool {
    let half = pc.contact.spec_dir().spec_scale(Fx { raw: PAIR_PUSH });
    let p = cars[pc.first as int].position;
    let q = cars[pc.second as int].position;
    &&& -FX_MAX <= p.x.raw - half.x.raw <= FX_MAX
    &&& -FX_MAX <= p.y.raw - half.y.raw <= FX_MAX
    &&& -FX_MAX <= p.z.raw - half.z.raw <= FX_MAX
    &&& -FX_MAX <= q.x.raw + half.x.raw <= FX_MAX
    &&& -FX_MAX <= q.y.raw + half.y.raw <= FX_MAX
    &&& -FX_MAX <= q.z.raw + half.z.raw <= FX_MAX
}

/// Half of `d`, truncated toward zero and doubled, keeps `d`'s sign and
/// never exceeds it in magnitude.
proof fn lemma_half_push(d: int, h: int)
    requires
        h == crate::fx::clip(crate::fx::tdiv(d * PAIR_PUSH, crate::fx::FX_ONE as int)),
        -2 * FX_MAX <= d <= 2 * FX_MAX,
    ensures
        moved_along(2 * h, d),
{
    assert(d * PAIR_PUSH == d * 5_000) by (nonlinear_arith);
    if d >= 0 {
        assert(vstd::math::abs(d * 5_000) == d * 5_000) by (nonlinear_arith)
            requires
                d >= 0;
        assert(crate::fx::tdiv(d * 5_000, 10_000) == (d * 5_000) / 10_000);
        assert(0 <= (d * 5_000) / 10_000 <= d / 2) by (nonlinear_arith)
            requires
                d >= 0;
    } else {
        assert(vstd::math::abs(d * 5_000) == (-d) * 5_000) by (nonlinear_arith)
            requires
                d < 0;
        assert(crate::fx::tdiv(d * 5_000, 10_000) == -(((-d) * 5_000) / 10_000));
        assert(0 <= ((-d) * 5_000) / 10_000 <= (-d) / 2) by (nonlinear_arith)
            requires
                d < 0;
    }
}

} // verus!
