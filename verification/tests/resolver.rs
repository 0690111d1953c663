//! Tests for the arithmetic helpers and the direction/proximity resolver.

use manzar::arith::{isqrt, round_div_sqrt};
use manzar::geometry::{compass_direction, nearest_scratch_edge, Direction, Edge};
use manzar::sprite::Point;

#[test]
fn isqrt_small_values() {
    assert_eq!(isqrt(0), 0);
    assert_eq!(isqrt(1), 1);
    assert_eq!(isqrt(3), 1);
    assert_eq!(isqrt(4), 2);
    assert_eq!(isqrt(99), 9);
    assert_eq!(isqrt(100), 10);
}

#[test]
fn isqrt_chase_distance() {
    // The first chase step of the pet tests: pet (100,100), pointer (500,500).
    assert_eq!(isqrt(320_000), 565);
    assert_eq!(565i64 * 565, 319_225);
    assert_eq!(566i64 * 566, 320_356);
}

#[test]
fn isqrt_upper_bound() {
    assert_eq!(isqrt(8_000_000_000_000), 2_828_427);
    assert_eq!(isqrt(16_000_000_000_000), 4_000_000);
}

#[test]
fn round_div_sqrt_rounds_to_nearest() {
    assert_eq!(round_div_sqrt(3, 4), 2); // 3 / 2 = 1.5 rounds away from zero
    assert_eq!(round_div_sqrt(-3, 4), -2); // ties away from zero
    assert_eq!(round_div_sqrt(1, 4), 1); // 0.5 rounds up
    assert_eq!(round_div_sqrt(1, 9), 0); // 1 / 3 rounds down
    assert_eq!(round_div_sqrt(5, 4), 3); // 2.5 rounds up
    assert_eq!(round_div_sqrt(5, 2), 4); // 5 / sqrt(2) = 3.5355...
    assert_eq!(round_div_sqrt(4000, 320_000), 7); // 7.0710...
    assert_eq!(round_div_sqrt(-4000, 320_000), -7);
    assert_eq!(round_div_sqrt(0, 7), 0);
    // Against a true distance that is no perfect square: 550 / sqrt(15125)
    // is 4.4721..., where dividing by the rounded-down root 122 would give
    // 4.5081... and a step of 5.
    assert_eq!(round_div_sqrt(550, 15_125), 4);
}

#[test]
fn compass_combined_bucket() {
    // A delta of (8, 6) against squared length 100 is the normalized
    // (0.8, 0.6): both the north and the west thresholds are crossed.
    assert_eq!(compass_direction(8, 6, 100), Some(Direction::Nw));
}

#[test]
fn compass_below_thresholds() {
    // A delta of (1, 1) against squared length 100 is the normalized
    // (0.1, 0.1): neither threshold is crossed.
    assert_eq!(compass_direction(1, 1, 100), None);
}

#[test]
fn compass_cardinals() {
    assert_eq!(compass_direction(0, 10, 100), Some(Direction::N));
    assert_eq!(compass_direction(0, -10, 100), Some(Direction::S));
    assert_eq!(compass_direction(10, 0, 100), Some(Direction::W));
    assert_eq!(compass_direction(-10, 0, 100), Some(Direction::E));
}

#[test]
fn compass_ordinals() {
    assert_eq!(compass_direction(-8, 6, 100), Some(Direction::Ne));
    assert_eq!(compass_direction(8, -6, 100), Some(Direction::Sw));
    assert_eq!(compass_direction(-8, -6, 100), Some(Direction::Se));
}

#[test]
fn compass_exact_threshold_not_crossed() {
    // Normalized 0.5 exactly: `> 0.5` must not trigger. (10, 0) against
    // squared length 400 is the normalized (0.5, 0).
    assert_eq!(compass_direction(10, 0, 400), None);
    assert_eq!(compass_direction(11, 0, 400), Some(Direction::W));
}

#[test]
fn scratch_edge_west_at_margin() {
    // Pet at (5, 200) in an 800 by 600 viewport with margin 10: only the
    // west edge (distance 5) qualifies.
    assert_eq!(nearest_scratch_edge(Point(5, 200), (800, 600), 10), Some(Edge::West));
}

#[test]
fn scratch_edge_none_in_the_middle() {
    assert_eq!(nearest_scratch_edge(Point(400, 300), (800, 600), 10), None);
}

#[test]
fn scratch_edge_ties_prefer_west_then_north() {
    // Equal west and north distances: west wins.
    assert_eq!(nearest_scratch_edge(Point(4, 4), (800, 600), 10), Some(Edge::West));
    // Equal north and east distances: north wins.
    assert_eq!(nearest_scratch_edge(Point(797, 3), (800, 600), 10), Some(Edge::North));
}

#[test]
fn scratch_edge_nearest_wins() {
    assert_eq!(nearest_scratch_edge(Point(8, 3), (800, 600), 10), Some(Edge::North));
    assert_eq!(nearest_scratch_edge(Point(795, 300), (800, 600), 10), Some(Edge::East));
    assert_eq!(nearest_scratch_edge(Point(400, 595), (800, 600), 10), Some(Edge::South));
}
