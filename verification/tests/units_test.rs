use scrapyard_planet::units::{
    clamp_to_i32, clamp_to_i64, clamp_to_u64, divide_toward_zero, int_sqrt, magnitude, rescale,
    Vec2,
};

#[test]
fn integer_square_root_of_small_numbers() {
    assert_eq!(int_sqrt(0), 0);
    assert_eq!(int_sqrt(1), 1);
    assert_eq!(int_sqrt(2), 1);
    assert_eq!(int_sqrt(3), 1);
    assert_eq!(int_sqrt(4), 2);
    assert_eq!(int_sqrt(99), 9);
    assert_eq!(int_sqrt(100), 10);
    assert_eq!(int_sqrt(101), 10);
}

#[test]
fn integer_square_root_of_large_numbers() {
    assert_eq!(int_sqrt(2_000_000), 1414);
    assert_eq!(int_sqrt(1u128 << 64), 1u64 << 32);
    assert_eq!(int_sqrt((1u128 << 64) - 1), (1u64 << 32) - 1);
    assert_eq!(int_sqrt(u128::MAX), u64::MAX);
}

#[test]
fn integer_square_root_brackets_its_argument() {
    let mut n: u128 = 0;
    while n < 5000 {
        let r = int_sqrt(n) as u128;
        assert!(r * r <= n);
        assert!((r + 1) * (r + 1) > n);
        n += 1;
    }
}

#[test]
fn clamps_bring_values_into_range() {
    assert_eq!(clamp_to_i32(5), 5);
    assert_eq!(clamp_to_i32(i32::MAX as i128 + 1), i32::MAX);
    assert_eq!(clamp_to_i32(i32::MIN as i128 - 1), i32::MIN);
    assert_eq!(clamp_to_i64(i64::MAX as i128 + 7), i64::MAX);
    assert_eq!(clamp_to_i64(i64::MIN as i128 - 7), i64::MIN);
    assert_eq!(clamp_to_i64(-3), -3);
    assert_eq!(clamp_to_u64(u64::MAX as u128 + 1), u64::MAX);
    assert_eq!(clamp_to_u64(12), 12);
}

#[test]
fn magnitude_of_the_smallest_value() {
    assert_eq!(magnitude(i64::MIN), 1u64 << 63);
    assert_eq!(magnitude(-5), 5);
    assert_eq!(magnitude(5), 5);
    assert_eq!(magnitude(0), 0);
}

#[test]
fn division_rounds_toward_zero() {
    assert_eq!(divide_toward_zero(7, 2), 3);
    assert_eq!(divide_toward_zero(-7, 2), -3);
    assert_eq!(divide_toward_zero(-1, 1000), 0);
    assert_eq!(divide_toward_zero(0, 3), 0);
}

#[test]
fn rescale_keeps_the_sign() {
    assert_eq!(rescale(3000, 500, 5000), 300);
    assert_eq!(rescale(-3000, 500, 5000), -300);
    assert_eq!(rescale(-1, 1, 2), 0);
    assert_eq!(rescale(17, 5, 0), 0);
}

#[test]
fn distance_squared_is_symmetric() {
    let a = Vec2::new(3000, -4000);
    let b = Vec2::new(0, 0);
    assert_eq!(a.distance_squared(b), 25_000_000);
    assert_eq!(b.distance_squared(a), 25_000_000);
}

#[test]
fn distance_squared_of_the_far_corners() {
    let a = Vec2::new(i32::MIN, i32::MIN);
    let b = Vec2::new(i32::MAX, i32::MAX);
    let side = (1u128 << 32) - 1;
    assert_eq!(a.distance_squared(b), 2 * side * side);
}

#[test]
fn within_is_strict() {
    let a = Vec2::new(0, 0);
    let b = Vec2::new(3000, 4000);
    assert!(a.is_within(b, 5001));
    assert!(!a.is_within(b, 5000));
    assert!(!a.is_within(b, 4999));
}

#[test]
fn nothing_is_within_a_radius_that_is_not_positive() {
    let a = Vec2::new(0, 0);
    assert!(!a.is_within(a, 0));
    assert!(!a.is_within(a, -5));
    assert!(a.is_within(a, 1));
}

#[test]
fn aim_rescales_the_offset() {
    let from = Vec2::new(1000, 1000);
    let to = Vec2::new(4000, 5000);
    assert_eq!(from.aim(to, 5000), Vec2::new(3000, 4000));
    assert_eq!(from.aim(to, 10), Vec2::new(6, 8));
    assert_eq!(to.aim(from, 10), Vec2::new(-6, -8));
}

#[test]
fn aim_at_oneself_is_the_null_offset() {
    let p = Vec2::new(123, -456);
    assert_eq!(p.aim(p, 400_000), Vec2::new(0, 0));
}

#[test]
fn aim_along_the_diagonal() {
    let origin = Vec2::new(0, 0);
    assert_eq!(origin.aim(Vec2::new(1000, 1000), 1000), Vec2::new(707, 707));
    assert_eq!(origin.aim(Vec2::new(-1000, 1000), 300_000), Vec2::new(-212_164, 212_164));
}

#[test]
fn step_toward_moves_along_the_line() {
    let from = Vec2::new(0, 0);
    assert_eq!(from.step_toward(Vec2::new(100_000, 0), 30_000), Vec2::new(30_000, 0));
    assert_eq!(from.step_toward(Vec2::new(-3000, -4000), 500), Vec2::new(-300, -400));
}

#[test]
fn step_toward_carries_past_the_target() {
    let from = Vec2::new(0, 0);
    assert_eq!(from.step_toward(Vec2::new(100_000, 0), 150_000), Vec2::new(150_000, 0));
}

#[test]
fn step_toward_oneself_stays() {
    let p = Vec2::new(77, 88);
    assert_eq!(p.step_toward(p, 1_000_000), p);
    assert_eq!(p.step_toward(p, 0), p);
}

#[test]
fn step_toward_stops_at_the_edge_of_the_coordinates() {
    let from = Vec2::new(i32::MAX - 10, 0);
    let to = Vec2::new(i32::MAX, 0);
    assert_eq!(from.step_toward(to, 1_000_000_000_000), Vec2::new(i32::MAX, 0));
}

#[test]
fn a_step_beyond_every_distance_carries_to_the_edge() {
    let from = Vec2::new(0, 0);
    assert_eq!(from.step_toward(Vec2::new(1, 0), u128::MAX), Vec2::new(i32::MAX, 0));
    assert_eq!(from.step_toward(Vec2::new(-5, -5), u128::MAX), Vec2::new(i32::MIN, i32::MIN));
    assert_eq!(from.step_toward(Vec2::new(3, -4), 1u128 << 100), Vec2::new(i32::MAX, i32::MIN));
    assert_eq!(from.step_toward(from, u128::MAX), from);
    let far = Vec2::new(i32::MIN, i32::MIN);
    assert_eq!(
        far.step_toward(Vec2::new(i32::MAX, i32::MIN + 1), u128::MAX),
        Vec2::new(i32::MAX, i32::MAX)
    );
}

#[test]
fn advance_moves_by_velocity_times_time() {
    let p = Vec2::new(0, 0);
    let v = Vec2::new(400_000, -200_000);
    assert_eq!(p.advance(v, 1_000_000), Vec2::new(400_000, -200_000));
    assert_eq!(p.advance(v, 16_667), Vec2::new(6666, -3333));
    assert_eq!(p.advance(v, 0), p);
}

#[test]
fn advance_stops_at_the_edge_of_the_coordinates() {
    let p = Vec2::new(i32::MAX - 1, i32::MIN + 1);
    let v = Vec2::new(1_000_000, -1_000_000);
    assert_eq!(p.advance(v, u64::MAX), Vec2::new(i32::MAX, i32::MIN));
}
