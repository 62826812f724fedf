//! The curve of an edge: a cubic Bezier curve between two screen points,
//! cut into straight pieces.
//!
//! The curve leaves its source and reaches its target vertically: its two
//! inner control points stand above or below the end points, at the height
//! half way between them.

use vstd::prelude::*;
use crate::geometry::{clamp_coord, clamp_to_coord, div_round, mul_wide, round_div, Point};

verus! {

/// The number of straight pieces that stand for the curve.
pub const CURVE_STEPS: usize = 20;

/// The x coordinate of the curve from `s` to `t` after `i` of 20 steps. The
/// control points have the x coordinates `s`, `s`, `t`, `t`, so the weights
/// of `s` and of `t` are sums of two Bernstein terms each, over `20 * 20 *
/// 20`.
pub open spec fn curve_x(s: int, t: int, i: int) -> int {
    let u = 20 - i;
    round_div((u * u * u + 3 * u * u * i) * s + (3 * u * i * i + i * i * i) * t, 8000)
}

/// The y coordinate of the curve from `s` to `t` after `i` of 20 steps. The
/// control points have the y coordinates `s`, `(s + t) / 2`, `(s + t) / 2`,
/// `t`; everything is doubled to keep the halves exact.
pub open spec fn curve_y(s: int, t: int, i: int) -> int {
    let u = 20 - i;
    round_div(
        2 * (u * u * u) * s + (3 * u * u * i + 3 * u * i * i) * (s + t) + 2 * (i * i * i) * t,
        16000,
    )
}

/// The point of the curve from `source` to `target` after `i` of 20 steps,
/// rounded to the nearest pixel.
pub open spec fn curve_point(source: Point, target: Point, i: int) -> Point {
    Point {
        x: clamp_coord(curve_x(source.x as int, target.x as int, i)),
        y: clamp_coord(curve_y(source.y as int, target.y as int, i)),
    }
}

/// The curve begins at its source and ends at its target.
pub proof fn lemma_curve_ends(source: Point, target: Point)
    ensures
        curve_point(source, target, 0) == source,
        curve_point(source, target, 20) == target,
{
    let (sx, tx) = (source.x as int, target.x as int);
    let (sy, ty) = (source.y as int, target.y as int);
    assert(curve_x(sx, tx, 0) == sx && curve_x(sx, tx, 20) == tx) by (nonlinear_arith);
    assert(curve_y(sy, ty, 0) == sy && curve_y(sy, ty, 20) == ty) by (nonlinear_arith);
}

/// The four Bernstein weights after `i` of 20 steps, over `20 * 20 * 20`:
/// the terms of `(u + i) * (u + i) * (u + i)` for `u = 20 - i`.
fn weights(i: usize) -> (w: (i128, i128, i128, i128))
    requires
        i <= 20,
    ensures
        w.0 == (20 - i) * (20 - i) * (20 - i),
        w.1 == 3 * (20 - i) * (20 - i) * i,
        w.2 == 3 * (20 - i) * i * i,
        w.3 == i * i * i,
        0 <= w.0 <= 8000,
        0 <= w.1 <= 8000,
        0 <= w.2 <= 8000,
        0 <= w.3 <= 8000,
        w.0 + w.1 + w.2 + w.3 == 8000,
{
    let t: i128 = i as i128;
    let u: i128 = 20 - t;
    assert(0 <= u * u <= 400 && 0 <= t * t <= 400 && 0 <= u * t <= 400) by (nonlinear_arith)
        requires
            0 <= u <= 20,
            0 <= t <= 20,
    ;
    let uu: i128 = u * u;
    let tt: i128 = t * t;
    let ut: i128 = u * t;
    assert(0 <= uu * u && 0 <= ut * u && 0 <= ut * t && 0 <= tt * t && uu * u + 3 * (ut * u) + 3
        * (ut * t) + tt * t == 8000) by (nonlinear_arith)
        requires
            0 <= u <= 20,
            0 <= t <= 20,
            u + t == 20,
            uu == u * u,
            tt == t * t,
            ut == u * t,
    ;
    assert(uu * u == (20 - i) * (20 - i) * (20 - i) && 3 * (ut * u) == 3 * (20 - i) * (20 - i) * i
        && 3 * (ut * t) == 3 * (20 - i) * i * i && tt * t == i * i * i) by (nonlinear_arith)
        requires
            u == 20 - i,
            t == i,
            uu == u * u,
            tt == t * t,
            ut == u * t,
    ;
    (uu * u, 3 * (ut * u), 3 * (ut * t), tt * t)
}

/// The curve of an edge from `source` to `target`: its source, then the
/// point after each of the 20 steps, the last of which is its target.
pub fn edge_curve(source: Point, target: Point) -> (points: Vec<Point>)
    ensures
        points@.len() == CURVE_STEPS + 1,
        forall|i: int| 0 <= i <= 20 ==> points@[i] == curve_point(source, target, i),
        points@[0] == source,
        points@[20] == target,
{
    let sx: i128 = source.x as i128;
    let sy: i128 = source.y as i128;
    let tx: i128 = target.x as i128;
    let ty: i128 = target.y as i128;
    let mut points: Vec<Point> = Vec::new();
    let mut i: usize = 0;
    while i <= CURVE_STEPS
        invariant
            0 <= i <= CURVE_STEPS + 1,
            CURVE_STEPS == 20,
            sx == source.x,
            sy == source.y,
            tx == target.x,
            ty == target.y,
            points@.len() == i,
            forall|j: int| 0 <= j < i ==> points@[j] == curve_point(source, target, j),
        decreases CURVE_STEPS + 1 - i,
    {
        let (w0, w1, w2, w3) = weights(i);
        let x: i128 = div_round(mul_wide(sx, w0 + w1) + mul_wide(tx, w2 + w3), 8000);
        let y: i128 = div_round(
            mul_wide(sy, 2 * w0) + mul_wide(sy + ty, w1 + w2) + mul_wide(ty, 2 * w3),
            16000,
        );
        proof {
            let u = 20 - i;
            assert(w0 + w1 == u * u * u + 3 * u * u * i);
            assert(w2 + w3 == 3 * u * i * i + i * i * i);
            assert(2 * w0 == 2 * (u * u * u));
            assert(w1 + w2 == 3 * u * u * i + 3 * u * i * i);
            assert(2 * w3 == 2 * (i * i * i));
            assert(sx * (w0 + w1) == (u * u * u + 3 * u * u * i) * sx) by (nonlinear_arith)
                requires
                    w0 + w1 == u * u * u + 3 * u * u * i,
            ;
            assert(tx * (w2 + w3) == (3 * u * i * i + i * i * i) * tx) by (nonlinear_arith)
                requires
                    w2 + w3 == 3 * u * i * i + i * i * i,
            ;
            assert(sy * (2 * w0) == 2 * (u * u * u) * sy) by (nonlinear_arith)
                requires
                    2 * w0 == 2 * (u * u * u),
            ;
            assert((sy + ty) * (w1 + w2) == (3 * u * u * i + 3 * u * i * i) * (sy + ty))
                by (nonlinear_arith)
                requires
                    w1 + w2 == 3 * u * u * i + 3 * u * i * i,
            ;
            assert(ty * (2 * w3) == 2 * (i * i * i) * ty) by (nonlinear_arith)
                requires
                    2 * w3 == 2 * (i * i * i),
            ;
        }
        points.push(Point { x: clamp_to_coord(x), y: clamp_to_coord(y) });
        i += 1;
    }
    proof {
        lemma_curve_ends(source, target);
    }
    points
}

} // verus!
