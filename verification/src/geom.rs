//! Fixed-point plane geometry: vectors in milli-pixels and the two collision
//! tests the games use (circle vs circle, circle vs axis-aligned rectangle).

use vstd::prelude::*;

verus! {

/// A point or velocity in the plane, in milli-pixels (1/1000 of a pixel).
#[derive(Clone, Copy, Debug)]
pub struct Vec2 {
    pub x: i64,
    pub y: i64,
}

/// Mathematical value of a `Vec2`.
#[verifier::ext_equal]
pub ghost struct V2 {
    pub x: int,
    pub y: int,
}

impl View for Vec2 {
    type V = V2;

    open spec fn view(&self) -> V2 {
        V2 { x: self.x as int, y: self.y as int }
    }
}

impl Vec2 {
    pub fn new(x: i64, y: i64) -> (v: Vec2)
        ensures
            v@ == (V2 { x: x as int, y: y as int }),
    {
        Vec2 { x, y }
    }
}

pub open spec fn abs(a: int) -> int {
    if a < 0 {
        -a
    } else {
        a
    }
}

/// Coordinates handed to the collision tests stay below this magnitude.
pub const COORD_LIMIT: i64 = 0x1000_0000_0000;

/// Radii and rectangle half-extents stay below this magnitude.
pub const RADIUS_LIMIT: i64 = 0x4000_0000;

/// Two circles overlap when the distance between their centers is strictly
/// less than the sum of their radii.
pub open spec fn circles_overlap(p1: V2, r1: int, p2: V2, r2: int) -> bool {
    let dx = p1.x - p2.x;
    let dy = p1.y - p2.y;
    dx * dx + dy * dy < (r1 + r2) * (r1 + r2)
}

pub fn circles_collide(p1: &Vec2, r1: i64, p2: &Vec2, r2: i64) -> (b: bool)
    requires
        abs(p1@.x) <= COORD_LIMIT,
        abs(p1@.y) <= COORD_LIMIT,
        abs(p2@.x) <= COORD_LIMIT,
        abs(p2@.y) <= COORD_LIMIT,
        0 <= r1 <= RADIUS_LIMIT,
        0 <= r2 <= RADIUS_LIMIT,
    ensures
        b == circles_overlap(p1@, r1 as int, p2@, r2 as int),
{
    let dx: i128 = p1.x as i128 - p2.x as i128;
    let dy: i128 = p1.y as i128 - p2.y as i128;
    let rs: i128 = r1 as i128 + r2 as i128;
    proof {
        let l = COORD_LIMIT as int;
        let rl = RADIUS_LIMIT as int;
        assert(0 <= (dx as int) * (dx as int) <= 4 * l * l) by (nonlinear_arith)
            requires
                -2 * l <= dx as int <= 2 * l,
        ;
        assert(0 <= (dy as int) * (dy as int) <= 4 * l * l) by (nonlinear_arith)
            requires
                -2 * l <= dy as int <= 2 * l,
        ;
        assert(0 <= (rs as int) * (rs as int) <= 4 * rl * rl) by (nonlinear_arith)
            requires
                0 <= rs as int <= 2 * rl,
        ;
    }
    dx * dx + dy * dy < rs * rs
}

/// A circle overlaps an axis-aligned rectangle (given by its center and
/// half-extents) when the circle's center is within the radius of the
/// rectangle along both axes and, diagonally past a corner, within the
/// radius of that corner.
pub open spec fn circle_rect_overlap(c: V2, r: int, rc: V2, hx: int, hy: int) -> bool {
    let dx = abs(c.x - rc.x);
    let dy = abs(c.y - rc.y);
    if dx > hx + r {
        false
    } else if dy > hy + r {
        false
    } else if dx <= hx || dy <= hy {
        true
    } else {
        (dx - hx) * (dx - hx) + (dy - hy) * (dy - hy) <= r * r
    }
}

pub fn circle_rect_collide(c: &Vec2, r: i64, rc: &Vec2, hx: i64, hy: i64) -> (b: bool)
    requires
        abs(c@.x) <= COORD_LIMIT,
        abs(c@.y) <= COORD_LIMIT,
        abs(rc@.x) <= COORD_LIMIT,
        abs(rc@.y) <= COORD_LIMIT,
        0 <= r <= RADIUS_LIMIT,
        0 <= hx <= COORD_LIMIT,
        0 <= hy <= COORD_LIMIT,
    ensures
        b == circle_rect_overlap(c@, r as int, rc@, hx as int, hy as int),
{
    let dxs: i64 = if c.x >= rc.x {
        c.x - rc.x
    } else {
        rc.x - c.x
    };
    let dys: i64 = if c.y >= rc.y {
        c.y - rc.y
    } else {
        rc.y - c.y
    };
    if dxs > hx + r {
        false
    } else if dys > hy + r {
        false
    } else if dxs <= hx || dys <= hy {
        true
    } else {
        let cx: i128 = dxs as i128 - hx as i128;
        let cy: i128 = dys as i128 - hy as i128;
        proof {
            let rl = RADIUS_LIMIT as int;
            assert(0 <= (cx as int) * (cx as int) <= rl * rl) by (nonlinear_arith)
                requires
                    0 <= cx as int <= rl,
            ;
            assert(0 <= (cy as int) * (cy as int) <= rl * rl) by (nonlinear_arith)
                requires
                    0 <= cy as int <= rl,
            ;
            assert(0 <= (r as int) * (r as int) <= rl * rl) by (nonlinear_arith)
                requires
                    0 <= r as int <= rl,
            ;
        }
        cx * cx + cy * cy <= (r as i128) * (r as i128)
    }
}

/// Quotient of two non-negative machine integers, as the mathematical
/// (Euclidean) division.
pub fn div_nn(a: i64, b: i64) -> (r: i64)
    requires
        0 <= a,
        1 <= b,
    ensures
        r == a as int / b as int,
        0 <= r <= a,
{
    proof {
        vstd::arithmetic::div_mod::lemma_div_is_ordered(0, a as int, b as int);
        vstd::arithmetic::div_mod::lemma_div_is_ordered_by_denominator(a as int, 1, b as int);
    }
    (a as u64 / b as u64) as i64
}

/// Truncating division: what the machine's `/` computes on signed integers
/// with a positive divisor.
pub open spec fn div_trunc(a: int, b: int) -> int {
    if a >= 0 {
        a / b
    } else {
        -((-a) / b)
    }
}

/// Truncating division never grows a value's magnitude.
pub proof fn lemma_div_trunc_bound(a: int, b: int)
    requires
        1 <= b,
    ensures
        abs(div_trunc(a, b)) <= abs(a),
{
    if a >= 0 {
        vstd::arithmetic::div_mod::lemma_div_is_ordered(0, a, b);
        vstd::arithmetic::div_mod::lemma_div_is_ordered_by_denominator(a, 1, b);
        vstd::arithmetic::div_mod::lemma_div_multiples_vanish(a, 1);
    } else {
        vstd::arithmetic::div_mod::lemma_div_is_ordered(0, -a, b);
        vstd::arithmetic::div_mod::lemma_div_is_ordered_by_denominator(-a, 1, b);
        vstd::arithmetic::div_mod::lemma_div_multiples_vanish(-a, 1);
    }
}

pub fn div_trunc_ex(a: i64, b: i64) -> (r: i64)
    requires
        1 <= b,
        abs(a as int) <= 0x2000_0000_0000_0000,
    ensures
        r == div_trunc(a as int, b as int),
        abs(r as int) <= abs(a as int),
{
    if a >= 0 {
        div_nn(a, b)
    } else {
        -div_nn(-a, b)
    }
}

/// An overlap pins the circle's center to within a radius of the rectangle
/// along each axis.
pub proof fn lemma_circle_rect_overlap_close(c: V2, r: int, rc: V2, hx: int, hy: int)
    requires
        circle_rect_overlap(c, r, rc, hx, hy),
    ensures
        abs(c.x - rc.x) <= hx + r,
        abs(c.y - rc.y) <= hy + r,
{
}

} // verus!
