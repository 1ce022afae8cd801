//! Points and the geometric primitives that the construction is made of.
use vstd::arithmetic::div_mod::{
    lemma_div_is_ordered, lemma_div_multiples_vanish, lemma_fundamental_div_mod,
    lemma_fundamental_div_mod_converse,
};
use vstd::arithmetic::mul::{lemma_mul_inequality, lemma_mul_nonnegative};
use vstd::prelude::*;

verus! {

/// How far a stored point may lie from the center of its diagram, on each
/// axis; the center itself lies within this bound of the origin.
pub const COORD_LIMIT: i64 = 1073741824;

/// Bound on each coordinate of the end points handed to [`intersection`].
pub const SEGMENT_LIMIT: i64 = 1099511627776;

/// Bound on the radius of a diagram and on its radial parameters.
pub const RADIUS_LIMIT: i64 = 536870912;

/// How many times its own length a segment is extended beyond each of its
/// ends before it is intersected, so that it stands in for its whole line.
pub const EXTENSION: i64 = 25;

/// The two ways in which a construction step can fail.
#[derive(Clone, Copy, Debug, PartialEq, Eq, Structural)]
pub enum YantraError {
    /// Two lines that had to cross are parallel, collinear, degenerate, or
    /// cross outside their extended range.
    NoIntersection,
    /// A named point was read before it was written.
    UnknownPoint,
}

/// A point of the plane on the integer grid.
#[derive(Clone, Copy, Debug, PartialEq, Eq, Structural)]
pub struct Point {
    pub x: i64,
    pub y: i64,
}

impl Point {
    pub fn new(x: i64, y: i64) -> (r: Point)
        ensures
            r == (Point { x, y }),
    {
        Point { x, y }
    }

    /// Both coordinates lie within `bound` of the origin.
    pub open spec fn within(self, bound: int) -> bool {
        -bound <= self.x <= bound && -bound <= self.y <= bound
    }

    /// Both coordinates lie within `COORD_LIMIT` of those of `center`.
    pub open spec fn near(self, center: Point) -> bool {
        -COORD_LIMIT <= self.x - center.x <= COORD_LIMIT && -COORD_LIMIT <= self.y
            - center.y <= COORD_LIMIT
    }
}

/// The reflection of `p` across the vertical line through `center` (east and west swap).
pub open spec fn mirror_east_west(center: Point, p: Point) -> Point {
    Point { x: (2 * center.x - p.x) as i64, y: p.y }
}

/// The reflection of `p` across the horizontal line through `center` (up and down swap).
pub open spec fn mirror_up_down(center: Point, p: Point) -> Point {
    Point { x: p.x, y: (2 * center.y - p.y) as i64 }
}

/// The midpoint of `a` and `b`, each coordinate rounded down to the grid.
pub open spec fn midpoint(a: Point, b: Point) -> Point {
    Point { x: ((a.x + b.x) / 2) as i64, y: ((a.y + b.y) / 2) as i64 }
}

/// Reflects `p` across the vertical axis through `center`.
pub fn reflect_east_west(p: Point, center: Point) -> (r: Point)
    requires
        center.within(COORD_LIMIT as int),
        p.near(center),
    ensures
        r == mirror_east_west(center, p),
        r.near(center),
{
    Point { x: 2 * center.x - p.x, y: p.y }
}

/// Reflects `p` across the horizontal axis through `center`.
pub fn reflect_up_down(p: Point, center: Point) -> (r: Point)
    requires
        center.within(COORD_LIMIT as int),
        p.near(center),
    ensures
        r == mirror_up_down(center, p),
        r.near(center),
{
    Point { x: p.x, y: 2 * center.y - p.y }
}

/// Half of `v`, rounded down.
fn half_down(v: i64) -> (r: i64)
    requires
        v > i64::MIN,
    ensures
        r == v / 2,
{
    if v >= 0 {
        v / 2
    } else {
        let m = -(v + 1);
        let r = -(m / 2) - 1;
        assert(r == v / 2) by (nonlinear_arith)
            requires
                v < 0,
                m == -(v + 1),
                r == -(m / 2) - 1,
        ;
        r
    }
}

/// The midpoint of `a` and `b`.
pub fn mid_point(a: Point, b: Point) -> (r: Point)
    requires
        a.within(SEGMENT_LIMIT as int),
        b.within(SEGMENT_LIMIT as int),
    ensures
        r == midpoint(a, b),
{
    Point { x: half_down(a.x + b.x), y: half_down(a.y + b.y) }
}

/// The cross product of the vectors `(ax, ay)` and `(bx, by)`.
pub open spec fn cross(ax: int, ay: int, bx: int, by: int) -> int {
    ax * by - ay * bx
}

/// The cross product of the directions of the segments `p–q` and `r–s`;
/// zero exactly when they are parallel.
pub open spec fn crossing_den(p: Point, q: Point, r: Point, s: Point) -> int {
    cross(q.x - p.x, q.y - p.y, s.x - r.x, s.y - r.y)
}

/// `crossing_den` times the position of the crossing along `p–q`
/// (zero at `p`, one at `q`).
pub open spec fn crossing_along_first(p: Point, q: Point, r: Point, s: Point) -> int {
    cross(r.x - p.x, r.y - p.y, s.x - r.x, s.y - r.y)
}

/// `crossing_den` times the position of the crossing along `r–s`
/// (zero at `r`, one at `s`).
pub open spec fn crossing_along_second(p: Point, q: Point, r: Point, s: Point) -> int {
    cross(r.x - p.x, r.y - p.y, q.x - p.x, q.y - p.y)
}

/// The segments `p–q` and `r–s` are not parallel and meet in a point that
/// lies on both of them, end points included.
pub open spec fn segments_cross(p: Point, q: Point, r: Point, s: Point) -> bool {
    let d = crossing_den(p, q, r, s);
    let t = crossing_along_first(p, q, r, s);
    let u = crossing_along_second(p, q, r, s);
    (d > 0 && 0 <= t <= d && 0 <= u <= d) || (d < 0 && d <= t <= 0 && d <= u <= 0)
}

/// The point where the segments `p–q` and `r–s` cross, each coordinate
/// rounded down to the grid.
pub open spec fn crossing_point(p: Point, q: Point, r: Point, s: Point) -> Point {
    let d = crossing_den(p, q, r, s);
    let t = crossing_along_first(p, q, r, s);
    let n = if d > 0 { t } else { -t };
    let m = if d > 0 { d } else { -d };
    Point { x: (p.x + n * (q.x - p.x) / m) as i64, y: (p.y + n * (q.y - p.y) / m) as i64 }
}

proof fn lemma_mul_bound(a: int, b: int, ka: int, kb: int)
    requires
        -ka <= a <= ka,
        -kb <= b <= kb,
    ensures
        -(ka * kb) <= a * b <= ka * kb,
{
    assert(-(ka * kb) <= a * b <= ka * kb) by (nonlinear_arith)
        requires
            -ka <= a <= ka,
            -kb <= b <= kb,
    ;
}

/// A fraction `n / m` of `d`, with `0 <= n <= m`, lies between `0` and `d`.
proof fn lemma_fraction_between(n: int, m: int, d: int)
    requires
        0 <= n <= m,
        m > 0,
    ensures
        d >= 0 ==> 0 <= n * d / m <= d,
        d < 0 ==> d <= n * d / m <= 0,
{
    lemma_div_multiples_vanish(d, m);
    if d >= 0 {
        lemma_mul_inequality(n, m, d);
        lemma_mul_nonnegative(n, d);
        lemma_div_is_ordered(0, n * d, m);
        lemma_div_is_ordered(n * d, m * d, m);
        assert(m * d == d * m) by (nonlinear_arith);
    } else {
        lemma_mul_inequality(n, m, -d);
        lemma_mul_nonnegative(n, -d);
        assert(n * (-d) == -(n * d)) by (nonlinear_arith);
        assert(m * (-d) == -(m * d)) by (nonlinear_arith);
        lemma_div_is_ordered(n * d, 0, m);
        lemma_div_is_ordered(m * d, n * d, m);
        assert(m * d == d * m) by (nonlinear_arith);
    }
}

/// `n / m` rounded down.
fn floor_div(n: i128, m: i128) -> (r: i128)
    requires
        m > 0,
        n > i128::MIN,
    ensures
        r == n / m,
{
    if n >= 0 {
        n / m
    } else {
        let k = -(n + 1);
        let q = k / m;
        proof {
            lemma_fundamental_div_mod(k as int, m as int);
            let rem = k % m;
            assert(n == (-q - 1) * m + (m - rem - 1)) by (nonlinear_arith)
                requires
                    k == m * q + rem,
                    n == -(k + 1),
            ;
            lemma_fundamental_div_mod_converse(n as int, m as int, -q - 1, m - rem - 1);
        }
        -q - 1
    }
}

/// Where the segments `p–q` and `r–s` cross. Fails with `NoIntersection`
/// when they are parallel (collinear ones included) or do not meet.
pub fn intersection(p: Point, q: Point, r: Point, s: Point) -> (res: Result<Point, YantraError>)
    requires
        p.within(SEGMENT_LIMIT as int),
        q.within(SEGMENT_LIMIT as int),
        r.within(SEGMENT_LIMIT as int),
        s.within(SEGMENT_LIMIT as int),
    ensures
        match res {
            Ok(x) => segments_cross(p, q, r, s) && x == crossing_point(p, q, r, s),
            Err(e) => !segments_cross(p, q, r, s) && e == YantraError::NoIntersection,
        },
{
    let d1x = q.x as i128 - p.x as i128;
    let d1y = q.y as i128 - p.y as i128;
    let d2x = s.x as i128 - r.x as i128;
    let d2y = s.y as i128 - r.y as i128;
    let wx = r.x as i128 - p.x as i128;
    let wy = r.y as i128 - p.y as i128;
    let ghost k: int = 2 * SEGMENT_LIMIT;
    proof {
        lemma_mul_bound(d1x as int, d2y as int, k, k);
        lemma_mul_bound(d1y as int, d2x as int, k, k);
        lemma_mul_bound(wx as int, d2y as int, k, k);
        lemma_mul_bound(wy as int, d2x as int, k, k);
        lemma_mul_bound(wx as int, d1y as int, k, k);
        lemma_mul_bound(wy as int, d1x as int, k, k);
    }
    let den = d1x * d2y - d1y * d2x;
    let t = wx * d2y - wy * d2x;
    let u = wx * d1y - wy * d1x;
    if den == 0 {
        return Err(YantraError::NoIntersection);
    }
    let n = if den > 0 { t } else { -t };
    let m = if den > 0 { den } else { -den };
    let v = if den > 0 { u } else { -u };
    if n < 0 || n > m || v < 0 || v > m {
        return Err(YantraError::NoIntersection);
    }
    proof {
        lemma_mul_bound(n as int, d1x as int, 2 * k * k, k);
        lemma_mul_bound(n as int, d1y as int, 2 * k * k, k);
        lemma_fraction_between(n as int, m as int, d1x as int);
        lemma_fraction_between(n as int, m as int, d1y as int);
    }
    let x = p.x as i128 + floor_div(n * d1x, m);
    let y = p.y as i128 + floor_div(n * d1y, m);
    Ok(Point { x: x as i64, y: y as i64 })
}

/// `r` is the square root of `n` rounded down.
pub open spec fn is_floor_sqrt(n: int, r: int) -> bool {
    0 <= r && r * r <= n < (r + 1) * (r + 1)
}

/// The square root of `n` rounded down.
pub open spec fn floor_sqrt(n: int) -> int {
    choose|r: int| is_floor_sqrt(n, r)
}

proof fn lemma_floor_sqrt_unique(n: int, r: int)
    requires
        is_floor_sqrt(n, r),
    ensures
        floor_sqrt(n) == r,
{
    let c = floor_sqrt(n);
    assert(is_floor_sqrt(n, c));
    if c < r {
        assert((c + 1) * (c + 1) <= r * r) by (nonlinear_arith)
            requires
                0 <= c < r,
        ;
    } else if r < c {
        assert((r + 1) * (r + 1) <= c * c) by (nonlinear_arith)
            requires
                0 <= r < c,
        ;
    }
}

/// The square root of `n`, rounded down.
pub fn integer_sqrt(n: i64) -> (r: i64)
    requires
        0 <= n <= 1152921504606846976,
    ensures
        r == floor_sqrt(n as int),
        is_floor_sqrt(n as int, r as int),
{
    let mut lo: i64 = 0;
    let mut hi: i64 = 1073741825;
    assert(n < hi * hi) by (nonlinear_arith)
        requires
            n <= 1152921504606846976,
            hi == 1073741825,
    ;
    while hi - lo > 1
        invariant
            0 <= lo < hi <= 1073741825,
            lo * lo <= n < hi * hi,
        decreases hi - lo,
    {
        let mid = lo + (hi - lo) / 2;
        assert(mid * mid <= 1152921504606846976) by (nonlinear_arith)
            requires
                0 <= mid <= 1073741824,
        ;
        if mid * mid <= n {
            lo = mid;
        } else {
            hi = mid;
        }
    }
    proof {
        lemma_floor_sqrt_unique(n as int, lo as int);
    }
    lo
}

/// `p` moved `EXTENSION` times the length of `p–q` further, away from `q`.
pub open spec fn extended(p: Point, q: Point) -> Point {
    Point { x: (p.x + EXTENSION * (p.x - q.x)) as i64, y: (p.y + EXTENSION * (p.y - q.y)) as i64 }
}

/// The line through `p` and `q` meets the line through `r` and `s`, each
/// taken as its segment extended `EXTENSION` times its length beyond both ends.
pub open spec fn lines_meet(p: Point, q: Point, r: Point, s: Point) -> bool {
    segments_cross(extended(p, q), extended(q, p), extended(r, s), extended(s, r))
}

/// The point where those extended segments cross.
pub open spec fn meeting_point(p: Point, q: Point, r: Point, s: Point) -> Point {
    crossing_point(extended(p, q), extended(q, p), extended(r, s), extended(s, r))
}

fn extend(p: Point, q: Point) -> (r: Point)
    requires
        p.within(2 * COORD_LIMIT),
        q.within(2 * COORD_LIMIT),
    ensures
        r == extended(p, q),
        r.within(SEGMENT_LIMIT as int),
{
    Point { x: p.x + EXTENSION * (p.x - q.x), y: p.y + EXTENSION * (p.y - q.y) }
}

/// Where the line through `p` and `q` meets the line through `r` and `s`.
/// Each line is approximated by its segment extended `EXTENSION` times its
/// length beyond both ends; fails with `NoIntersection` when those are
/// parallel, collinear or degenerate, or do not cross. Parallel lines
/// always fail.
pub fn line_intersection(p: Point, q: Point, r: Point, s: Point) -> (res: Result<
    Point,
    YantraError,
>)
    requires
        p.within(2 * COORD_LIMIT),
        q.within(2 * COORD_LIMIT),
        r.within(2 * COORD_LIMIT),
        s.within(2 * COORD_LIMIT),
    ensures
        match res {
            Ok(x) => lines_meet(p, q, r, s) && x == meeting_point(p, q, r, s),
            Err(e) => !lines_meet(p, q, r, s) && e == YantraError::NoIntersection,
        },
        cross(q.x - p.x, q.y - p.y, s.x - r.x, s.y - r.y) == 0 ==> res == Err::<
            Point,
            YantraError,
        >(YantraError::NoIntersection),
{
    let a = extend(p, q);
    let b = extend(q, p);
    let c = extend(r, s);
    let d = extend(s, r);
    assert(crossing_den(a, b, c, d) == 2601 * cross(q.x - p.x, q.y - p.y, s.x - r.x, s.y - r.y))
        by (nonlinear_arith)
        requires
            b.x - a.x == 51 * (q.x - p.x),
            b.y - a.y == 51 * (q.y - p.y),
            d.x - c.x == 51 * (s.x - r.x),
            d.y - c.y == 51 * (s.y - r.y),
    ;
    intersection(a, b, c, d)
}

/// Half the length of the chord of the circle (`center`, `radius`) that
/// runs `height` above the center, rounded down; `None` where the circle
/// has no chord at that height.
pub open spec fn half_chord(radius: int, height: int) -> Option<int> {
    if height * height <= radius * radius {
        Some(floor_sqrt(radius * radius - height * height))
    } else {
        None
    }
}

/// Half the length of the chord at `height` above the center of a circle of `radius`.
pub fn half_chord_length(radius: i64, height: i64) -> (r: Option<i64>)
    requires
        0 < radius <= RADIUS_LIMIT,
        -2 * COORD_LIMIT <= height <= 2 * COORD_LIMIT,
    ensures
        r matches Some(w) ==> 0 <= w <= radius,
        match r {
            Some(w) => half_chord(radius as int, height as int) == Some(w as int),
            None => half_chord(radius as int, height as int) is None,
        },
{
    let h = height as i128;
    proof {
        lemma_mul_bound(radius as int, radius as int, RADIUS_LIMIT as int, RADIUS_LIMIT as int);
        lemma_mul_bound(h as int, h as int, 2 * COORD_LIMIT, 2 * COORD_LIMIT);
        lemma_mul_nonnegative(radius as int, radius as int);
        assert(h * h >= 0) by (nonlinear_arith);
    }
    let rr = radius as i128 * radius as i128;
    let hh = h * h;
    if hh > rr {
        return None;
    }
    assert(0 <= rr - hh <= 1152921504606846976) by (nonlinear_arith)
        requires
            0 < radius <= RADIUS_LIMIT,
            rr == radius * radius,
            0 <= hh <= rr,
    ;
    let w = integer_sqrt((rr - hh) as i64);
    proof {
        if w > radius {
            assert(false) by (nonlinear_arith)
                requires
                    0 < radius < w,
                    w * w <= rr - hh,
                    hh >= 0,
                    rr == radius * radius,
            ;
        }
    }
    Some(w)
}

} // verus!
