use vstd::prelude::*;

verus! {

/// Largest coordinate magnitude the engine represents, in milli-units
/// (ten thousand screen units: far beyond any window).
pub const COORD_LIMIT: i64 = 10_000_000;

/// One unit of a direction vector: direction components are scaled by this.
pub const DIR_ONE: i64 = 1000;

/// A 2D point or vector in milli-units.
#[derive(Clone, Copy, PartialEq, Eq, Structural, Debug)]
pub struct Vec2 {
    pub x: i64,
    pub y: i64,
}

impl Vec2 {
    pub open spec fn in_bounds(self) -> bool {
        &&& -COORD_LIMIT <= self.x <= COORD_LIMIT
        &&& -COORD_LIMIT <= self.y <= COORD_LIMIT
    }

    pub fn new(x: i64, y: i64) -> (v: Vec2)
        ensures
            v == (Vec2 { x, y }),
    {
        Vec2 { x, y }
    }
}

/// Squared Euclidean distance between two points, in squared milli-units.
pub open spec fn dist2(a: Vec2, b: Vec2) -> int {
    (a.x - b.x) * (a.x - b.x) + (a.y - b.y) * (a.y - b.y)
}

/// Integer square root, rounded down; 0 for negative arguments.
pub open spec fn sqrt_floor(n: int) -> int
    decreases n,
{
    if n <= 0 {
        0
    } else {
        let p = sqrt_floor(n - 1);
        if (p + 1) * (p + 1) <= n {
            p + 1
        } else {
            p
        }
    }
}

/// `sqrt_floor(n)` is the unique `r >= 0` with `r * r <= n < (r + 1) * (r + 1)`.
pub proof fn lemma_sqrt_floor(n: int)
    requires
        n >= 0,
    ensures
        0 <= sqrt_floor(n),
        sqrt_floor(n) * sqrt_floor(n) <= n,
        n < (sqrt_floor(n) + 1) * (sqrt_floor(n) + 1),
    decreases n,
{
    if n > 0 {
        lemma_sqrt_floor(n - 1);
        let p = sqrt_floor(n - 1);
        if (p + 1) * (p + 1) <= n {
            assert(n - 1 < (p + 1) * (p + 1));
            assert((p + 1) * (p + 1) < (p + 2) * (p + 2)) by (nonlinear_arith)
                requires p >= 0;
        }
    }
}

/// Any `r >= 0` with `r * r <= n < (r + 1) * (r + 1)` equals `sqrt_floor(n)`.
pub proof fn lemma_sqrt_floor_unique(n: int, r: int)
    requires
        n >= 0,
        r >= 0,
        r * r <= n,
        n < (r + 1) * (r + 1),
    ensures
        r == sqrt_floor(n),
{
    let s = sqrt_floor(n);
    lemma_sqrt_floor(n);
    if r < s {
        assert((r + 1) * (r + 1) <= s * s) by (nonlinear_arith)
            requires 0 <= r, r + 1 <= s;
    }
    if s < r {
        assert((s + 1) * (s + 1) <= r * r) by (nonlinear_arith)
            requires 0 <= s, s + 1 <= r;
    }
}

/// Executable integer square root by binary search.
pub fn isqrt(n: u64) -> (r: u64)
    requires
        n <= 1_500_000_000_000_000,
    ensures
        r == sqrt_floor(n as int),
        r * r <= n,
        n < (r + 1) * (r + 1),
{
    let mut lo: u64 = 0;
    let mut hi: u64 = 40_000_000;
    while lo < hi
        invariant
            lo <= hi,
            hi <= 40_000_000,
            lo * lo <= n,
            n < (hi + 1) * (hi + 1),
        decreases hi - lo,
    {
        let mid: u64 = lo + (hi - lo + 1) / 2;
        proof {
            assert(mid * mid <= 1_600_000_000_000_000) by (nonlinear_arith)
                requires mid <= 40_000_000;
        }
        if mid * mid <= n {
            lo = mid;
        } else {
            hi = mid - 1;
        }
    }
    proof {
        lemma_sqrt_floor_unique(n as int, lo as int);
    }
    lo
}

/// Distance between two points, rounded down to whole milli-units.
pub open spec fn dist_milli(a: Vec2, b: Vec2) -> int {
    sqrt_floor(dist2(a, b))
}

/// Distance between `a` and `b` divided by the milli-scaled divisor `t`;
/// zero when the divisor is not positive, so the conversion never fails.
pub open spec fn speed_spec(a: Vec2, b: Vec2, t: int) -> int {
    if t <= 0 {
        0
    } else {
        dist_milli(a, b) * 1000 / t
    }
}

/// Converts the distance between two points into a speed: the distance in
/// milli-units divided by `t` thousandths. Used to turn a drag length into a
/// launch speed, to derive per-second velocity decay, and to normalize the
/// velocity-bar fill.
pub fn get_distance(a: Vec2, b: Vec2, t: i64) -> (r: i64)
    requires
        a.in_bounds(),
        b.in_bounds(),
    ensures
        r == speed_spec(a, b, t as int),
        0 <= r <= 29_000_000_000,
{
    if t <= 0 {
        return 0;
    }
    let dx: i64 = a.x - b.x;
    let dy: i64 = a.y - b.y;
    proof {
        assert(0 <= dx * dx <= 400_000_000_000_000) by (nonlinear_arith)
            requires -20_000_000 <= dx <= 20_000_000;
        assert(0 <= dy * dy <= 400_000_000_000_000) by (nonlinear_arith)
            requires -20_000_000 <= dy <= 20_000_000;
    }
    let d2: u64 = (dx * dx + dy * dy) as u64;
    let d: u64 = isqrt(d2);
    proof {
        assert(d <= 29_000_000) by (nonlinear_arith)
            requires d * d <= d2, d2 <= 800_000_000_000_000;
    }
    let scaled: u64 = d * 1000;
    let r: u64 = scaled / (t as u64);
    proof {
        assert(r <= scaled) by (nonlinear_arith)
            requires t >= 1, r == scaled / (t as u64), scaled <= 29_000_000_000u64;
    }
    r as i64
}

/// Between in-bounds points the distance stays below 29 million milli-units.
pub proof fn lemma_dist_milli_bound(a: Vec2, b: Vec2)
    requires
        a.in_bounds(),
        b.in_bounds(),
    ensures
        0 <= dist_milli(a, b) <= 29_000_000,
        0 <= dist2(a, b) <= 800_000_000_000_000,
{
    let dx = a.x - b.x;
    let dy = a.y - b.y;
    assert(0 <= dx * dx <= 400_000_000_000_000) by (nonlinear_arith)
        requires -20_000_000 <= dx <= 20_000_000;
    assert(0 <= dy * dy <= 400_000_000_000_000) by (nonlinear_arith)
        requires -20_000_000 <= dy <= 20_000_000;
    let n = dist2(a, b);
    lemma_sqrt_floor(n);
    let s = sqrt_floor(n);
    assert(s <= 29_000_000) by (nonlinear_arith)
        requires s * s <= n, 0 <= s, n <= 800_000_000_000_000;
}

/// A distance-derived speed with a divisor of at least one unit stays below
/// the distance itself, hence within the representable speed range.
pub proof fn lemma_speed_bound(a: Vec2, b: Vec2, t: int)
    requires
        a.in_bounds(),
        b.in_bounds(),
    ensures
        0 <= speed_spec(a, b, t) <= 29_000_000_000,
        t >= 1000 ==> speed_spec(a, b, t) <= 29_000_000,
{
    lemma_dist_milli_bound(a, b);
    if t > 0 {
        let d = dist_milli(a, b);
        assert(0 <= d * 1000 / t <= 29_000_000_000) by (nonlinear_arith)
            requires 0 <= d <= 29_000_000, t >= 1;
        if t >= 1000 {
            assert(d * 1000 / t <= 29_000_000) by (nonlinear_arith)
                requires 0 <= d <= 29_000_000, t >= 1000;
        }
    }
}

/// Neither coordinate difference can exceed the rounded distance itself.
pub proof fn lemma_component_le_dist(a: Vec2, b: Vec2)
    requires
        a.in_bounds(),
        b.in_bounds(),
    ensures
        -dist_milli(a, b) <= a.x - b.x <= dist_milli(a, b),
        -dist_milli(a, b) <= a.y - b.y <= dist_milli(a, b),
{
    let dx = a.x - b.x;
    let dy = a.y - b.y;
    let n = dist2(a, b);
    assert(dx * dx >= 0 && dy * dy >= 0) by (nonlinear_arith);
    lemma_sqrt_floor(n);
    let s = sqrt_floor(n);
    assert(-s <= dx <= s) by (nonlinear_arith)
        requires dx * dx <= n, n < (s + 1) * (s + 1), s >= 0;
    assert(-s <= dy <= s) by (nonlinear_arith)
        requires dy * dy <= n, n < (s + 1) * (s + 1), s >= 0;
}

/// Strict axis-aligned rectangle overlap: each rectangle is anchored at its
/// position corner with the given extents, and touching edges do not count.
pub open spec fn rects_overlap(
    ax: int, ay: int, aw: int, ah: int,
    bx: int, by: int, bw: int, bh: int,
) -> bool {
    ax < bx + bw && ax + aw > bx && ay < by + bh && ay + ah > by
}

/// Executable strict AABB overlap test on milli-unit rectangles.
pub fn check_collision_for_quads(
    plr_x: i64, plr_y: i64, plr_w: i64, plr_h: i64,
    obj_x: i64, obj_y: i64, obj_w: i64, obj_h: i64,
) -> (r: bool)
    requires
        -100_000_000 <= plr_x <= 100_000_000,
        -100_000_000 <= plr_y <= 100_000_000,
        -100_000_000 <= plr_w <= 100_000_000,
        -100_000_000 <= plr_h <= 100_000_000,
        -100_000_000 <= obj_x <= 100_000_000,
        -100_000_000 <= obj_y <= 100_000_000,
        -100_000_000 <= obj_w <= 100_000_000,
        -100_000_000 <= obj_h <= 100_000_000,
    ensures
        r == rects_overlap(
            plr_x as int, plr_y as int, plr_w as int, plr_h as int,
            obj_x as int, obj_y as int, obj_w as int, obj_h as int,
        ),
{
    plr_x < obj_x + obj_w && plr_x + plr_w > obj_x && plr_y < obj_y + obj_h && plr_y + plr_h > obj_y
}

} // verus!
