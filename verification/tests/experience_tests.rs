use pumpkin_core::experience::{points_in_level, points_to_level, total_to_level_and_points};

#[test]
fn points_in_level_exact_values() {
    assert_eq!(points_in_level(0), 7);
    assert_eq!(points_in_level(15), 37);
    assert_eq!(points_in_level(16), 42);
    assert_eq!(points_in_level(30), 112);
    assert_eq!(points_in_level(31), 121);
    assert_eq!(points_in_level(100), 742);
}

#[test]
fn points_to_level_exact_values() {
    assert_eq!(points_to_level(0), 0);
    assert_eq!(points_to_level(1), 7);
    assert_eq!(points_to_level(16), 352);
    assert_eq!(points_to_level(17), 394);
    assert_eq!(points_to_level(31), 1507);
    assert_eq!(points_to_level(32), 1628);
    assert_eq!(points_to_level(100), 30970);
}

#[test]
fn totals_invert_to_levels_and_points() {
    assert_eq!(total_to_level_and_points(0), (0, 0));
    assert_eq!(total_to_level_and_points(6), (0, 6));
    assert_eq!(total_to_level_and_points(7), (1, 0));
    assert_eq!(total_to_level_and_points(352), (16, 0));
    assert_eq!(total_to_level_and_points(353), (16, 1));
    assert_eq!(total_to_level_and_points(394), (17, 0));
    assert_eq!(total_to_level_and_points(1507), (31, 0));
    assert_eq!(total_to_level_and_points(1628), (32, 0));
    assert_eq!(total_to_level_and_points(30970), (100, 0));
    assert_eq!(total_to_level_and_points(30973), (100, 3));
}

#[test]
fn totals_round_trip_through_levels() {
    for level in 0..200i32 {
        let start = points_to_level(level);
        let (back, into) = total_to_level_and_points(start);
        assert_eq!((back, into), (level, 0));
        let (back2, into2) = total_to_level_and_points(start + 1);
        assert_eq!(back2, level);
        assert_eq!(into2, 1);
    }
}

#[test]
fn level_steps_match_points_in_level() {
    // The threshold gap between consecutive levels is exactly the points the
    // lower level holds.
    for level in 0..100i32 {
        assert_eq!(points_to_level(level + 1) - points_to_level(level), points_in_level(level));
    }
}
