//! The turtle tracer: walks a turn sequence from the origin, facing north,
//! and records the corners it reaches together with their bounding box.

use vstd::prelude::*;
use crate::vectors::{Direction, TurnDirection, Vector2i, fits_i32, turned, unit_x, unit_y};

verus! {

/// The length of one leg of the curve.
pub const LINE_LENGTH: i32 = 20;

/// How far into the next leg the chamfered tracer resumes after a corner:
/// the leg length times the corner factor, a quarter. It lies strictly
/// between 0 and `LINE_LENGTH`.
pub const CORNER_LEAD: i32 = 5;

/// How far along a leg the chamfered tracer goes before it cuts the corner:
/// the leg length times one minus the corner factor.
pub const CORNER_APPROACH: i32 = LINE_LENGTH - CORNER_LEAD;

/// The longest turn sequence that the tracers accept: every coordinate then
/// stays within `LINE_LENGTH * MAX_TURNS` of the origin, inside `i32`.
pub const MAX_TURNS: usize = 100_000_000;

/// The facing after the first `k` turns of `s`.
pub open spec fn facing_after(s: Seq<TurnDirection>, k: nat) -> Direction
    decreases k,
{
    if k == 0 {
        Direction::NORTH
    } else {
        turned(facing_after(s, (k - 1) as nat), s[k - 1])
    }
}

/// The x coordinate of the corner reached after `k` legs.
pub open spec fn corner_x(s: Seq<TurnDirection>, k: nat) -> int
    decreases k,
{
    if k == 0 {
        0
    } else {
        corner_x(s, (k - 1) as nat) + unit_x(facing_after(s, (k - 1) as nat)) * LINE_LENGTH
    }
}

/// The y coordinate of the corner reached after `k` legs.
pub open spec fn corner_y(s: Seq<TurnDirection>, k: nat) -> int
    decreases k,
{
    if k == 0 {
        0
    } else {
        corner_y(s, (k - 1) as nat) + unit_y(facing_after(s, (k - 1) as nat)) * LINE_LENGTH
    }
}

/// The least x over the corners `0..=k`, the origin included.
pub open spec fn min_x_upto(s: Seq<TurnDirection>, k: nat) -> int
    decreases k,
{
    if k == 0 {
        0
    } else if corner_x(s, k) < min_x_upto(s, (k - 1) as nat) {
        corner_x(s, k)
    } else {
        min_x_upto(s, (k - 1) as nat)
    }
}

/// The greatest x over the corners `0..=k`.
pub open spec fn max_x_upto(s: Seq<TurnDirection>, k: nat) -> int
    decreases k,
{
    if k == 0 {
        0
    } else if corner_x(s, k) > max_x_upto(s, (k - 1) as nat) {
        corner_x(s, k)
    } else {
        max_x_upto(s, (k - 1) as nat)
    }
}

/// The least y over the corners `0..=k`.
pub open spec fn min_y_upto(s: Seq<TurnDirection>, k: nat) -> int
    decreases k,
{
    if k == 0 {
        0
    } else if corner_y(s, k) < min_y_upto(s, (k - 1) as nat) {
        corner_y(s, k)
    } else {
        min_y_upto(s, (k - 1) as nat)
    }
}

/// The greatest y over the corners `0..=k`.
pub open spec fn max_y_upto(s: Seq<TurnDirection>, k: nat) -> int
    decreases k,
{
    if k == 0 {
        0
    } else if corner_y(s, k) > max_y_upto(s, (k - 1) as nat) {
        corner_y(s, k)
    } else {
        max_y_upto(s, (k - 1) as nat)
    }
}

/// After `k` legs the tracer is at most `k` leg lengths from the origin on
/// each axis, and the bounds lie within the same distance.
proof fn lemma_corner_range(s: Seq<TurnDirection>, k: nat)
    ensures
        -(k * LINE_LENGTH) <= min_x_upto(s, k) <= corner_x(s, k) <= max_x_upto(s, k) <= k
            * LINE_LENGTH,
        -(k * LINE_LENGTH) <= min_y_upto(s, k) <= corner_y(s, k) <= max_y_upto(s, k) <= k
            * LINE_LENGTH,
        min_x_upto(s, k) <= 0 <= max_x_upto(s, k),
        min_y_upto(s, k) <= 0 <= max_y_upto(s, k),
    decreases k,
{
    if k > 0 {
        lemma_corner_range(s, (k - 1) as nat);
    }
}

/// The distance covered by `k + 1` legs, plus a leg, fits in an `i32`.
proof fn lemma_leg_fits(k: nat)
    requires
        k < MAX_TURNS,
    ensures
        (k + 1) * LINE_LENGTH + LINE_LENGTH <= i32::MAX,
{
    assert((k + 1) * 20 <= 2_000_000_000) by (nonlinear_arith)
        requires
            k + 1 <= 100_000_000,
    ;
}

/// Whether `p` is the corner reached after `k` legs of `s`.
pub open spec fn is_corner(p: Vector2i, s: Seq<TurnDirection>, k: nat) -> bool {
    p.x == corner_x(s, k) && p.y == corner_y(s, k)
}

/// Traces `current_step` with sharp corners. Returns the corner reached
/// after each leg, in order, and the bounds `(min_x, min_y, max_x, max_y)`
/// of all corners, the origin included.
pub fn create_fractal_lines(current_step: &Vec<TurnDirection>) -> (r: (
    Vec<Vector2i>,
    i32,
    i32,
    i32,
    i32,
))
    requires
        current_step@.len() <= MAX_TURNS,
    ensures
        r.0@.len() == current_step@.len(),
        forall|j: int|
            0 <= j < r.0@.len() ==> is_corner(#[trigger] r.0@[j], current_step@, (j + 1) as nat),
        r.1 == min_x_upto(current_step@, current_step@.len()),
        r.2 == min_y_upto(current_step@, current_step@.len()),
        r.3 == max_x_upto(current_step@, current_step@.len()),
        r.4 == max_y_upto(current_step@, current_step@.len()),
        r.1 <= 0 <= r.3,
        r.2 <= 0 <= r.4,
        forall|j: int|
            0 <= j < r.0@.len() ==> r.1 <= #[trigger] r.0@[j].x <= r.3 && r.2 <= r.0@[j].y
                <= r.4,
        r.0@.len() >= 1 ==> exists|j: int| 0 <= j < r.0@.len() && #[trigger] r.0@[j].x == r.3,
        r.0@.len() >= 1 ==> exists|j: int| 0 <= j < r.0@.len() && #[trigger] r.0@[j].y == r.4,
{
    let ghost s = current_step@;
    let len = current_step.len();
    let mut facing = Direction::NORTH;
    let mut point = Vector2i { x: 0, y: 0 };
    let (mut min_x, mut max_x, mut min_y, mut max_y): (i32, i32, i32, i32) = (0, 0, 0, 0);
    let mut points: Vec<Vector2i> = Vec::new();
    let mut i: usize = 0;
    while i < len
        invariant
            s == current_step@,
            len == s.len(),
            len <= MAX_TURNS,
            i <= len,
            facing == facing_after(s, i as nat),
            is_corner(point, s, i as nat),
            min_x == min_x_upto(s, i as nat),
            max_x == max_x_upto(s, i as nat),
            min_y == min_y_upto(s, i as nat),
            max_y == max_y_upto(s, i as nat),
            points@.len() == i,
            forall|j: int| 0 <= j < i ==> is_corner(#[trigger] points@[j], s, (j + 1) as nat),
        decreases len - i,
    {
        proof {
            lemma_corner_range(s, (i + 1) as nat);
            lemma_leg_fits(i as nat);
        }
        let change = facing.cartesian_move() * LINE_LENGTH;
        points.push(Vector2i { x: point.x + change.x, y: point.y + change.y });
        point.add_assign(change);
        facing = facing.next_direction(current_step[i]);
        if point.x < min_x {
            min_x = point.x;
        } else if point.x > max_x {
            max_x = point.x;
        }
        if point.y < min_y {
            min_y = point.y;
        } else if point.y > max_y {
            max_y = point.y;
        }
        i = i + 1;
    }
    proof {
        assert forall|j: int| 0 <= j < points@.len() implies min_x <= #[trigger] points@[j].x
            <= max_x && min_y <= points@[j].y <= max_y by {
            lemma_bounds_contain_corners(s, len as nat);
        }
        if len >= 1 {
            lemma_translated_extent(s, len as nat);
            let kx = choose|k: nat|
                1 <= k <= len && #[trigger] corner_x(s, k) - min_x_upto(s, len as nat)
                    == max_x_upto(s, len as nat) - min_x_upto(s, len as nat);
            let ky = choose|k: nat|
                1 <= k <= len && #[trigger] corner_y(s, k) - min_y_upto(s, len as nat)
                    == max_y_upto(s, len as nat) - min_y_upto(s, len as nat);
            assert(points@[kx - 1].x == max_x);
            assert(points@[ky - 1].y == max_y);
        }
    }
    proof {
        lemma_corner_range(s, len as nat);
    }
    (points, min_x, min_y, max_x, max_y)
}

/// Whether `p` is where the chamfered tracer leaves leg `k` (counted from
/// 0): `CORNER_APPROACH` along it from the corner where it starts.
pub open spec fn is_approach(p: Vector2i, s: Seq<TurnDirection>, k: nat) -> bool {
    &&& p.x == corner_x(s, k) + unit_x(facing_after(s, k)) * CORNER_APPROACH
    &&& p.y == corner_y(s, k) + unit_y(facing_after(s, k)) * CORNER_APPROACH
}

/// Whether `p` is where the chamfered tracer joins the leg that starts at
/// corner `k`: `CORNER_LEAD` along it.
pub open spec fn is_lead(p: Vector2i, s: Seq<TurnDirection>, k: nat) -> bool {
    &&& p.x == corner_x(s, k) + unit_x(facing_after(s, k)) * CORNER_LEAD
    &&& p.y == corner_y(s, k) + unit_y(facing_after(s, k)) * CORNER_LEAD
}

/// Traces `current_step` with chamfered corners. Returns the origin, then
/// for each leg the point short of its end corner and the point just past
/// that corner on the next leg; and the bounds `(min_x, min_y, max_x, max_y)`
/// of the true corners, the origin included, not of the cut points.
pub fn create_fractal_lines_chamfered(current_step: &Vec<TurnDirection>) -> (r: (
    Vec<Vector2i>,
    i32,
    i32,
    i32,
    i32,
))
    requires
        current_step@.len() <= MAX_TURNS,
    ensures
        r.0@.len() == 2 * current_step@.len() + 1,
        r.0@[0] == (Vector2i { x: 0, y: 0 }),
        forall|j: int|
            0 <= j < current_step@.len() ==> is_approach(
                #[trigger] r.0@[2 * j + 1],
                current_step@,
                j as nat,
            ),
        forall|j: int|
            0 <= j < current_step@.len() ==> is_lead(
                #[trigger] r.0@[2 * j + 2],
                current_step@,
                (j + 1) as nat,
            ),
        r.1 == min_x_upto(current_step@, current_step@.len()),
        r.2 == min_y_upto(current_step@, current_step@.len()),
        r.3 == max_x_upto(current_step@, current_step@.len()),
        r.4 == max_y_upto(current_step@, current_step@.len()),
        r.1 <= 0 <= r.3,
        r.2 <= 0 <= r.4,
{
    let ghost s = current_step@;
    let len = current_step.len();
    let mut facing = Direction::NORTH;
    let mut point = Vector2i { x: 0, y: 0 };
    let (mut min_x, mut max_x, mut min_y, mut max_y): (i32, i32, i32, i32) = (0, 0, 0, 0);
    let mut points: Vec<Vector2i> = vec![Vector2i { x: 0, y: 0 }];
    let mut i: usize = 0;
    while i < len
        invariant
            s == current_step@,
            len == s.len(),
            len <= MAX_TURNS,
            i <= len,
            facing == facing_after(s, i as nat),
            is_corner(point, s, i as nat),
            min_x == min_x_upto(s, i as nat),
            max_x == max_x_upto(s, i as nat),
            min_y == min_y_upto(s, i as nat),
            max_y == max_y_upto(s, i as nat),
            points@.len() == 2 * i + 1,
            points@[0] == (Vector2i { x: 0, y: 0 }),
            forall|j: int| 0 <= j < i ==> is_approach(#[trigger] points@[2 * j + 1], s, j as nat),
            forall|j: int|
                0 <= j < i ==> is_lead(#[trigger] points@[2 * j + 2], s, (j + 1) as nat),
        decreases len - i,
    {
        proof {
            lemma_corner_range(s, i as nat);
            lemma_corner_range(s, (i + 1) as nat);
            lemma_leg_fits(i as nat);
        }
        let ghost before = points@;
        let change = facing.cartesian_move() * LINE_LENGTH;
        let f_point = point + facing.cartesian_move() * CORNER_APPROACH;
        points.push(f_point);
        point.add_assign(change);
        facing = facing.next_direction(current_step[i]);
        if point.x < min_x {
            min_x = point.x;
        } else if point.x > max_x {
            max_x = point.x;
        }
        if point.y < min_y {
            min_y = point.y;
        } else if point.y > max_y {
            max_y = point.y;
        }
        let m_point = point + facing.cartesian_move() * CORNER_LEAD;
        points.push(m_point);
        proof {
            assert forall|j: int| 0 <= j < i + 1 implies is_approach(
                #[trigger] points@[2 * j + 1],
                s,
                j as nat,
            ) by {
                if j < i {
                    assert(points@[2 * j + 1] == before[2 * j + 1]);
                }
            }
            assert forall|j: int| 0 <= j < i + 1 implies is_lead(
                #[trigger] points@[2 * j + 2],
                s,
                (j + 1) as nat,
            ) by {
                if j < i {
                    assert(points@[2 * j + 2] == before[2 * j + 2]);
                }
            }
        }
        i = i + 1;
    }
    proof {
        lemma_corner_range(s, len as nat);
    }
    (points, min_x, min_y, max_x, max_y)
}

/// Whether `p` shifted by `(-min_x, -min_y)` stays within `i32`.
pub open spec fn shift_fits(p: Vector2i, min_x: i32, min_y: i32) -> bool {
    fits_i32(p.x - min_x) && fits_i32(p.y - min_y)
}

/// Moves every point by `(-min_x, -min_y)`, so that the bounding box found
/// by a tracer starts at the origin. Returns `None` exactly when some moved
/// point would leave the `i32` range.
pub fn translate_points(points: &Vec<Vector2i>, min_x: i32, min_y: i32) -> (r: Option<
    Vec<Vector2i>,
>)
    ensures
        r is None <==> exists|j: int|
            0 <= j < points@.len() && !shift_fits(#[trigger] points@[j], min_x, min_y),
        r matches Some(v) ==> v@.len() == points@.len() && forall|j: int|
            0 <= j < points@.len() ==> (#[trigger] v@[j]).x == points@[j].x - min_x && v@[j].y
                == points@[j].y - min_y,
{
    let corner = Vector2i { x: min_x, y: min_y };
    let mut out: Vec<Vector2i> = Vec::new();
    let mut i: usize = 0;
    while i < points.len()
        invariant
            corner == (Vector2i { x: min_x, y: min_y }),
            i <= points@.len(),
            out@.len() == i,
            forall|j: int| 0 <= j < i ==> shift_fits(#[trigger] points@[j], min_x, min_y),
            forall|j: int|
                0 <= j < i ==> (#[trigger] out@[j]).x == points@[j].x - min_x && out@[j].y
                    == points@[j].y - min_y,
        decreases points@.len() - i,
    {
        let p = points[i];
        let dx = p.x as i64 - min_x as i64;
        let dy = p.y as i64 - min_y as i64;
        if dx < i32::MIN as i64 || dx > i32::MAX as i64 || dy < i32::MIN as i64 || dy
            > i32::MAX as i64 {
            return None;
        }
        out.push(p - corner);
        i = i + 1;
    }
    Some(out)
}

/// The width and height of the canvas that holds a bounding box.
pub fn canvas_size(min_x: i32, min_y: i32, max_x: i32, max_y: i32) -> (r: (u32, u32))
    requires
        min_x <= max_x,
        min_y <= max_y,
    ensures
        r.0 == max_x - min_x,
        r.1 == max_y - min_y,
{
    let w = (max_x as i64 - min_x as i64) as u32;
    let h = (max_y as i64 - min_y as i64) as u32;
    (w, h)
}

/// The bounds after `n` legs contain every corner `0..=n`.
pub proof fn lemma_bounds_contain_corners(s: Seq<TurnDirection>, n: nat)
    ensures
        forall|k: nat|
            k <= n ==> min_x_upto(s, n) <= #[trigger] corner_x(s, k) <= max_x_upto(s, n),
        forall|k: nat|
            k <= n ==> min_y_upto(s, n) <= #[trigger] corner_y(s, k) <= max_y_upto(s, n),
    decreases n,
{
    lemma_corner_range(s, n);
    if n > 0 {
        lemma_bounds_contain_corners(s, (n - 1) as nat);
    }
}

/// The bounds after `n` legs are tight: each of them is the coordinate of
/// some corner `0..=n`.
pub proof fn lemma_bounds_attained(s: Seq<TurnDirection>, n: nat)
    ensures
        exists|k: nat| k <= n && #[trigger] corner_x(s, k) == min_x_upto(s, n),
        exists|k: nat| k <= n && #[trigger] corner_x(s, k) == max_x_upto(s, n),
        exists|k: nat| k <= n && #[trigger] corner_y(s, k) == min_y_upto(s, n),
        exists|k: nat| k <= n && #[trigger] corner_y(s, k) == max_y_upto(s, n),
    decreases n,
{
    if n == 0 {
        assert(corner_x(s, 0) == min_x_upto(s, 0));
        assert(corner_y(s, 0) == min_y_upto(s, 0));
    } else {
        lemma_bounds_attained(s, (n - 1) as nat);
        assert(corner_x(s, n) == corner_x(s, n));
        assert(corner_y(s, n) == corner_y(s, n));
    }
}

/// Once at least one leg is traced, the greatest x and the greatest y are
/// reached at a corner other than the origin: the first leg goes north from
/// the origin, to a corner with the same x and a greater y.
proof fn lemma_max_after_origin(s: Seq<TurnDirection>, n: nat)
    requires
        n >= 1,
    ensures
        exists|k: nat| 1 <= k <= n && #[trigger] corner_x(s, k) == max_x_upto(s, n),
        exists|k: nat| 1 <= k <= n && #[trigger] corner_y(s, k) == max_y_upto(s, n),
    decreases n,
{
    if n == 1 {
        assert(facing_after(s, 0) == Direction::NORTH);
        assert(corner_x(s, 0) == 0 && corner_y(s, 0) == 0);
        assert(max_x_upto(s, 0) == 0 && max_y_upto(s, 0) == 0);
        assert(corner_x(s, 1) == 0 && corner_y(s, 1) == LINE_LENGTH);
        assert(corner_x(s, 1) == max_x_upto(s, 1));
        assert(corner_y(s, 1) == max_y_upto(s, 1));
    } else {
        lemma_max_after_origin(s, (n - 1) as nat);
        assert(corner_x(s, n) == corner_x(s, n));
        assert(corner_y(s, n) == corner_y(s, n));
    }
}

/// Shifting the corners reached by `n >= 1` legs by `(-min_x, -min_y)` puts
/// every one of them at non-negative coordinates, and the greatest shifted
/// coordinates, reached by some corner after the origin, are the width
/// `max_x - min_x` and the height `max_y - min_y`.
pub proof fn lemma_translated_extent(s: Seq<TurnDirection>, n: nat)
    requires
        n >= 1,
    ensures
        forall|k: nat|
            1 <= k <= n ==> 0 <= #[trigger] corner_x(s, k) - min_x_upto(s, n) <= max_x_upto(s, n)
                - min_x_upto(s, n),
        forall|k: nat|
            1 <= k <= n ==> 0 <= #[trigger] corner_y(s, k) - min_y_upto(s, n) <= max_y_upto(s, n)
                - min_y_upto(s, n),
        exists|k: nat|
            1 <= k <= n && #[trigger] corner_x(s, k) - min_x_upto(s, n) == max_x_upto(s, n)
                - min_x_upto(s, n),
        exists|k: nat|
            1 <= k <= n && #[trigger] corner_y(s, k) - min_y_upto(s, n) == max_y_upto(s, n)
                - min_y_upto(s, n),
{
    lemma_bounds_contain_corners(s, n);
    lemma_max_after_origin(s, n);
}

} // verus!
