use carambolage::framebuffer::FrameBuffer;
use carambolage::framelimiter::FrameLimiter;
use carambolage::Fx;
use carambolage::Vec3;

#[test]
fn products_truncate_toward_zero() {
    let a = Fx { raw: 15_000 };
    let b = Fx { raw: 333 };
    // 1.5 * 0.0333 = 0.04995 -> 0.0499 on the four-digit grid.
    assert_eq!(a.times(b).raw, 499);
    assert_eq!(a.neg().times(b).raw, -499);
    assert_eq!(a.times(b.neg()).raw, -499);
    assert_eq!(a.neg().times(b.neg()).raw, 499);
}

#[test]
fn quotients_truncate_toward_zero() {
    let a = Fx::from_units(1);
    let b = Fx::from_units(3);
    assert_eq!(a.divide(b).raw, 3_333);
    assert_eq!(a.neg().divide(b).raw, -3_333);
    assert_eq!(Fx::from_units(10).divide(Fx { raw: 5_000 }).raw, 200_000);
}

#[test]
fn arithmetic_saturates_at_the_world_edge() {
    let big = Fx::from_units(100_000);
    assert_eq!(big.plus(big).raw, 1_000_000_000);
    assert_eq!(big.neg().minus(big).raw, -1_000_000_000);
    assert_eq!(big.times(big).raw, 1_000_000_000);
    assert_eq!(Fx::new(i64::MAX).raw, 1_000_000_000);
    assert_eq!(Fx::from_units(123_456_789).raw, 1_000_000_000);
}

#[test]
fn lerp_interpolates_and_clamps_the_factor() {
    let a = Fx::from_units(0);
    let b = Fx::from_units(10);
    assert_eq!(a.lerp(b, Fx { raw: 5_000 }).raw, 50_000);
    assert_eq!(a.lerp(b, Fx { raw: 0 }), a);
    assert_eq!(a.lerp(b, Fx::from_units(7)), b);
    assert_eq!(a.lerp(b, Fx::from_units(-7)), a);
    assert_eq!(b.lerp(a, Fx { raw: 2_500 }).raw, 75_000);
}

#[test]
fn norm_is_the_euclidean_length() {
    assert_eq!(Vec3::from_raw(30_000, 0, 0).norm().raw, 30_000);
    assert_eq!(Vec3::from_raw(30_000, 40_000, 0).norm().raw, 50_000);
    // sqrt(2) in ten-thousandths, rounded down.
    assert_eq!(Vec3::from_raw(10_000, 10_000, 0).norm().raw, 14_142);
    assert_eq!(Vec3::zero().norm().raw, 0);
}

#[test]
fn sine_and_cosine_at_the_quarter_turns() {
    assert_eq!(Fx { raw: 0 }.sin().raw, 0);
    assert_eq!(Fx { raw: 0 }.cos().raw, 10_000);
    assert_eq!(Fx { raw: 15_708 }.sin().raw, 10_000);
    assert_eq!(Fx { raw: 31_416 }.sin().raw, 0);
    assert_eq!(Fx { raw: 31_416 }.cos().raw, -10_000);
    assert_eq!(Fx { raw: 47_124 }.sin().raw, -10_000);
    // A negative angle wraps around the circle first.
    assert_eq!(Fx { raw: -15_708 }.sin().raw, -10_000);
}

#[test]
fn centroid_division_truncates_toward_zero() {
    assert_eq!(Fx { raw: -270 }.over_count(2).raw, -135);
    assert_eq!(Fx { raw: 271 }.over_count(2).raw, 135);
    assert_eq!(Fx { raw: -271 }.over_count(2).raw, -135);
}

#[test]
fn frame_limiter_budget_and_delta() {
    let mut fl = FrameLimiter::new(60);
    assert_eq!(fl.time_per_frame_ns, 16_666_000);
    // A 10 ms frame leaves budget: keep sleeping; dt reads 0.01 s.
    assert!(fl.stop(10_000));
    assert_eq!(fl.start().raw, 100);
    // A 20 ms frame is over budget.
    assert!(!fl.stop(20_000));
    assert_eq!(fl.start().raw, 200);

    let mut unlimited = FrameLimiter::new(0);
    assert_eq!(unlimited.time_per_frame_ns, 1);
    assert!(!unlimited.stop(1));
}

#[test]
fn framebuffer_record_starts_unallocated() {
    let fb = FrameBuffer::new(1_920, 1_080);
    assert_eq!(fb.width, 1_920);
    assert_eq!(fb.height, 1_080);
    assert_eq!(fb.fbo, 0);
    assert_eq!(fb.rbo, 0);
    assert_eq!(fb.color_buffer, 0);
    let d: FrameBuffer = Default::default();
    assert_eq!(d.width, 0);
}
