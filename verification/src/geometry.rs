//! Direction and proximity resolver: squared distance between positions, the
//! 8-way compass bucket of a pointer-relative delta, and the nearest-edge
//! lookup used to pick a directional scratch animation.
//!
//! All comparisons are exact. The compass thresholds of the behavior rules
//! compare the normalized delta `dx / dist` against one half; since `dist`
//! is the positive square root of the squared distance `s`, the test
//! `dx / sqrt(s) > 1/2` holds exactly when `dx > 0 && 4 * dx * dx > s`, and
//! that is the form computed here — no square root and no rounding.

use vstd::prelude::*;
use crate::sprite::Point;

verus! {

/// A compass bucket: the sprite-set's own naming, where the `N` entry is the
/// one picked when the pet stands below the pointer on screen.
#[derive(Clone, Copy, PartialEq, Eq, Structural, Debug)]
pub enum Direction {
    N,
    S,
    E,
    W,
    Ne,
    Nw,
    Se,
    Sw,
}

/// A screen edge close enough to scratch.
#[derive(Clone, Copy, PartialEq, Eq, Structural, Debug)]
pub enum Edge {
    West,
    North,
    East,
    South,
}

/// Squared Euclidean distance between two positions.
pub open spec fn dist_sq(a: Point, b: Point) -> int {
    let dx = a.0 as int - b.0 as int;
    let dy = a.1 as int - b.1 as int;
    dx * dx + dy * dy
}

/// The normalized vertical delta crosses the northern threshold:
/// `dy / sqrt(s) > 1/2`.
pub open spec fn north_sel(dy: int, s: int) -> bool {
    dy > 0 && 4 * dy * dy > s
}

/// The normalized vertical delta crosses the southern threshold:
/// `dy / sqrt(s) < -1/2`.
pub open spec fn south_sel(dy: int, s: int) -> bool {
    dy < 0 && 4 * dy * dy > s
}

/// The normalized horizontal delta crosses the western threshold:
/// `dx / sqrt(s) > 1/2`.
pub open spec fn west_sel(dx: int, s: int) -> bool {
    dx > 0 && 4 * dx * dx > s
}

/// The normalized horizontal delta crosses the eastern threshold:
/// `dx / sqrt(s) < -1/2`.
pub open spec fn east_sel(dx: int, s: int) -> bool {
    dx < 0 && 4 * dx * dx > s
}

/// The compass bucket of a delta `(dx, dy)` whose squared length is `s`:
/// the vertical and horizontal components each selected by their threshold,
/// combined into an ordinal bucket when both are present.
pub open spec fn compass_spec(dx: int, dy: int, s: int) -> Option<Direction> {
    if north_sel(dy, s) {
        if west_sel(dx, s) {
            Some(Direction::Nw)
        } else if east_sel(dx, s) {
            Some(Direction::Ne)
        } else {
            Some(Direction::N)
        }
    } else if south_sel(dy, s) {
        if west_sel(dx, s) {
            Some(Direction::Sw)
        } else if east_sel(dx, s) {
            Some(Direction::Se)
        } else {
            Some(Direction::S)
        }
    } else {
        if west_sel(dx, s) {
            Some(Direction::W)
        } else if east_sel(dx, s) {
            Some(Direction::E)
        } else {
            None
        }
    }
}

/// Compass bucket from a raw delta and its squared length. Total: a delta
/// under every threshold maps to `None`.
pub fn compass_direction(dx: i64, dy: i64, s: i64) -> (r: Option<Direction>)
    requires
        -3_000_000 <= dx <= 3_000_000,
        -3_000_000 <= dy <= 3_000_000,
        0 <= s,
    ensures
        r == compass_spec(dx as int, dy as int, s as int),
{
    proof {
        assert(0 <= dy * dy <= 9_000_000_000_000) by (nonlinear_arith)
            requires -3_000_000 <= dy as int <= 3_000_000;
        assert(0 <= dx * dx <= 9_000_000_000_000) by (nonlinear_arith)
            requires -3_000_000 <= dx as int <= 3_000_000;
    }
    let vertical: i64 = 4 * (dy * dy);
    let horizontal: i64 = 4 * (dx * dx);
    proof {
        assert(vertical == 4 * (dy as int) * (dy as int)) by (nonlinear_arith)
            requires vertical == 4 * ((dy as int) * (dy as int));
        assert(horizontal == 4 * (dx as int) * (dx as int)) by (nonlinear_arith)
            requires horizontal == 4 * ((dx as int) * (dx as int));
    }
    if dy > 0 && vertical > s {
        if dx > 0 && horizontal > s {
            Some(Direction::Nw)
        } else if dx < 0 && horizontal > s {
            Some(Direction::Ne)
        } else {
            Some(Direction::N)
        }
    } else if dy < 0 && vertical > s {
        if dx > 0 && horizontal > s {
            Some(Direction::Sw)
        } else if dx < 0 && horizontal > s {
            Some(Direction::Se)
        } else {
            Some(Direction::S)
        }
    } else {
        if dx > 0 && horizontal > s {
            Some(Direction::W)
        } else if dx < 0 && horizontal > s {
            Some(Direction::E)
        } else {
            None
        }
    }
}

/// A delta as long as it claims to be always crosses some threshold: when
/// `s = dx * dx + dy * dy` is positive, the compass bucket is never `None`.
/// (Both components at or under one half would bound the squared length by
/// half of itself.) The chase logic relies on this: whenever the pet is far
/// enough from the pointer to move, a walk cycle exists for the step.
pub proof fn lemma_compass_total(dx: int, dy: int, s: int)
    requires
        s == dx * dx + dy * dy,
        s > 0,
    ensures
        compass_spec(dx, dy, s) is Some,
{
    if !north_sel(dy, s) && !south_sel(dy, s) && !west_sel(dx, s) && !east_sel(dx, s) {
        assert(false) by (nonlinear_arith)
            requires
                s == dx * dx + dy * dy,
                s > 0,
                !(dy > 0 && 4 * dy * dy > s),
                !(dy < 0 && 4 * dy * dy > s),
                !(dx > 0 && 4 * dx * dx > s),
                !(dx < 0 && 4 * dx * dx > s);
    }
}

/// Distance from the pet to the western screen edge.
pub open spec fn west_gap(cat: Point) -> int {
    cat.0 as int
}

/// Distance from the pet to the northern screen edge.
pub open spec fn north_gap(cat: Point) -> int {
    cat.1 as int
}

/// Distance from the pet to the eastern screen edge.
pub open spec fn east_gap(cat: Point, window: (i32, i32)) -> int {
    window.0 as int - cat.0 as int
}

/// Distance from the pet to the southern screen edge.
pub open spec fn south_gap(cat: Point, window: (i32, i32)) -> int {
    window.1 as int - cat.1 as int
}

/// The edge whose distance is under `margin` and minimal, ties broken by the
/// fixed priority West, then North, then East, then South; `None` when no
/// edge is close enough.
pub open spec fn scratch_edge_spec(cat: Point, window: (i32, i32), margin: int) -> Option<Edge> {
    let w = west_gap(cat);
    let n = north_gap(cat);
    let e = east_gap(cat, window);
    let s = south_gap(cat, window);
    if w < margin && w <= n && w <= e && w <= s {
        Some(Edge::West)
    } else if n < margin && n < w && n <= e && n <= s {
        Some(Edge::North)
    } else if e < margin && e < w && e < n && e <= s {
        Some(Edge::East)
    } else if s < margin && s < w && s < n && s < e {
        Some(Edge::South)
    } else {
        None
    }
}

/// Nearest qualifying screen edge for scratch targeting.
pub fn nearest_scratch_edge(cat: Point, window: (i32, i32), margin: i32) -> (r: Option<Edge>)
    requires
        -1_000_000 <= cat.0 <= 1_000_000,
        -1_000_000 <= cat.1 <= 1_000_000,
        0 <= window.0 <= 1_000_000,
        0 <= window.1 <= 1_000_000,
    ensures
        r == scratch_edge_spec(cat, window, margin as int),
{
    let w: i32 = cat.0;
    let n: i32 = cat.1;
    let e: i32 = window.0 - cat.0;
    let s: i32 = window.1 - cat.1;
    if w < margin && w <= n && w <= e && w <= s {
        Some(Edge::West)
    } else if n < margin && n < w && n <= e && n <= s {
        Some(Edge::North)
    } else if e < margin && e < w && e < n && e <= s {
        Some(Edge::East)
    } else if s < margin && s < w && s < n && s < e {
        Some(Edge::South)
    } else {
        None
    }
}

} // verus!
