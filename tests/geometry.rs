use arena_sim::geometry::{isqrt, scale_to_length, square_collide, Position, Velocity};

fn at(x: i32, y: i32) -> Position {
    Position { x, y }
}

#[test]
fn isqrt_rounds_down() {
    assert_eq!(isqrt(0), 0);
    assert_eq!(isqrt(1), 1);
    assert_eq!(isqrt(15), 3);
    assert_eq!(isqrt(16), 4);
    assert_eq!(isqrt(17), 4);
    assert_eq!(isqrt(u128::MAX), u64::MAX);
}

#[test]
fn squares_overlap_strictly() {
    // Sides 10 and 20: centres must be closer than 15 on each axis.
    assert!(square_collide(at(0, 0), 10, at(14, 14), 20));
    assert!(!square_collide(at(0, 0), 10, at(15, 0), 20));
    assert!(!square_collide(at(0, 0), 10, at(0, -15), 20));
    assert!(square_collide(at(0, 0), 10, at(-14, 0), 20));
    assert!(square_collide(at(5, 5), 1, at(5, 5), 1));
}

#[test]
fn scaling_keeps_direction_and_sets_length() {
    assert_eq!(scale_to_length(3, 4, 5_000), Velocity { x: 3_000, y: 4_000 });
    assert_eq!(scale_to_length(-3, 4, 5_000), Velocity { x: -3_000, y: 4_000 });
    assert_eq!(scale_to_length(0, -7, 100), Velocity { x: 0, y: -100 });
}

#[test]
fn scaling_zero_vector_gives_zero() {
    assert_eq!(scale_to_length(0, 0, 5_000), Velocity { x: 0, y: 0 });
}

#[test]
fn diagonal_unit_vector_is_one_over_root_two() {
    // 120000 / sqrt(2) = 84852.81...
    assert_eq!(scale_to_length(1, 1, 120_000), Velocity { x: 84_852, y: 84_852 });
    assert_eq!(scale_to_length(-1, 1, 120_000), Velocity { x: -84_852, y: 84_852 });
}
