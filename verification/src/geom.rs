//! Fixed-point 2D geometry: vectors in milli-units, an exact integer
//! ceiling square root, and the length-clamp used by the slingshot.

use vstd::prelude::*;

verus! {

/// Largest coordinate magnitude (in milli-units) the geometry works with.
pub const COORD_LIMIT: i64 = 1_000_000_000;

/// A 2D vector with both components in milli-units (thousandths of a world
/// unit). One world unit is 1000.
#[derive(Clone, Copy, PartialEq, Eq, Structural, Debug)]
pub struct Vec2i {
    pub x: i64,
    pub y: i64,
}

impl Vec2i {
    /// Both components are within the working coordinate range.
    pub open spec fn wf(self) -> bool {
        &&& -COORD_LIMIT <= self.x <= COORD_LIMIT
        &&& -COORD_LIMIT <= self.y <= COORD_LIMIT
    }

    /// Componentwise difference.
    pub fn sub(self, other: Vec2i) -> (r: Vec2i)
        requires
            self.wf(),
            other.wf(),
        ensures
            r.x == self.x - other.x,
            r.y == self.y - other.y,
    {
        Vec2i { x: self.x - other.x, y: self.y - other.y }
    }
}

/// `r` is the least nonnegative integer whose square is at least `n`.
pub open spec fn is_ceil_sqrt(n: int, r: int) -> bool {
    &&& r >= 0
    &&& r * r >= n
    &&& r > 0 ==> (r - 1) * (r - 1) < n
}

/// The least nonnegative integer whose square is at least `n`.
pub open spec fn ceil_sqrt(n: int) -> int {
    choose|r: int| is_ceil_sqrt(n, r)
}

/// The ceiling square root is unique: two integers that both satisfy
/// `is_ceil_sqrt` for the same `n` are equal.
pub proof fn lemma_ceil_sqrt_unique(n: int, r1: int, r2: int)
    requires
        is_ceil_sqrt(n, r1),
        is_ceil_sqrt(n, r2),
    ensures
        r1 == r2,
{
    if r1 < r2 {
        assert(r1 <= r2 - 1);
        lemma_square_monotone(r1, r2 - 1);
        assert(false);
    }
    if r2 < r1 {
        assert(r2 <= r1 - 1);
        lemma_square_monotone(r2, r1 - 1);
        assert(false);
    }
}

/// Squaring is monotone on nonnegative integers.
pub proof fn lemma_square_monotone(a: int, b: int)
    requires
        0 <= a <= b,
    ensures
        a * a <= b * b,
{
    assert(a * a <= b * b) by (nonlinear_arith)
        requires
            0 <= a <= b,
    ;
}

/// Exact integer ceiling square root by binary search.
pub fn ceil_sqrt_u64(n: u64) -> (r: u64)
    ensures
        is_ceil_sqrt(n as int, r as int),
        r == ceil_sqrt(n as int),
        r <= 0x1_0000_0000,
        n > 0 ==> r >= 1,
{
    let mut lo: u64 = 0;
    let mut hi: u64 = 0x1_0000_0000;
    proof {
        assert((0x1_0000_0000 as int) * (0x1_0000_0000 as int) >= n as int) by (nonlinear_arith)
            requires
                n <= u64::MAX,
        ;
    }
    while lo < hi
        invariant
            lo <= hi <= 0x1_0000_0000,
            (hi as int) * (hi as int) >= n as int,
            lo > 0 ==> (lo - 1) * (lo - 1) < n as int,
        decreases hi - lo,
    {
        let mid: u64 = lo + (hi - lo) / 2;
        proof {
            assert((mid as int) * (mid as int) <= 0x1_0000_0000_0000_0000) by (nonlinear_arith)
                requires
                    0 <= mid <= 0x1_0000_0000,
            ;
        }
        if (mid as u128) * (mid as u128) >= n as u128 {
            hi = mid;
        } else {
            lo = mid + 1;
        }
    }
    proof {
        assert(is_ceil_sqrt(n as int, lo as int));
        let w = ceil_sqrt(n as int);
        assert(is_ceil_sqrt(n as int, w)) by {
            assert(exists|r: int| is_ceil_sqrt(n as int, r));
        }
        lemma_ceil_sqrt_unique(n as int, lo as int, w);
        if n > 0 && lo == 0 {
            assert(false);
        }
    }
    lo
}

/// A 2D vector with rational components `(nx / den, ny / den)`, still in
/// milli-units. The denominator lets the length clamp scale a vector without
/// losing its exact direction.
#[derive(Clone, Copy, PartialEq, Eq, Structural, Debug)]
pub struct Frac2 {
    pub nx: i64,
    pub ny: i64,
    pub den: i64,
}

/// What `clamp_length` returns: `v` itself (over 1) when its length is
/// already within `max`, otherwise `v` scaled by exactly `max / ceil_sqrt(|v|^2)`.
pub open spec fn clamp_spec(v: Vec2i, max: i64) -> Frac2 {
    if v.x * v.x + v.y * v.y <= max * max {
        Frac2 { nx: v.x, ny: v.y, den: 1 }
    } else {
        Frac2 {
            nx: (v.x * max) as i64,
            ny: (v.y * max) as i64,
            den: ceil_sqrt(v.x * v.x + v.y * v.y) as i64,
        }
    }
}

/// Inputs the length clamp accepts: a difference of two well-formed vectors
/// and a nonnegative maximum within the coordinate range.
pub open spec fn clamp_pre(v: Vec2i, max: i64) -> bool {
    &&& -2 * COORD_LIMIT <= v.x <= 2 * COORD_LIMIT
    &&& -2 * COORD_LIMIT <= v.y <= 2 * COORD_LIMIT
    &&& 0 <= max <= COORD_LIMIT
}

/// Cap the length of `v` at `max` while preserving its exact direction.
///
/// When `|v| <= max` the vector comes back unchanged; otherwise every
/// component is multiplied by the same positive rational `max / den` with
/// `den = ceil_sqrt(|v|^2)`, so the result points exactly the way `v` does
/// and its length is at most `max`.
pub fn clamp_length(v: Vec2i, max: i64) -> (r: Frac2)
    requires
        clamp_pre(v, max),
    ensures
        r == clamp_spec(v, max),
        r.den >= 1,
{
    proof {
        lemma_clamp_ranges(v, max);
    }
    let sq: i64 = v.x * v.x + v.y * v.y;
    if sq <= max * max {
        Frac2 { nx: v.x, ny: v.y, den: 1 }
    } else {
        let den_u = ceil_sqrt_u64(sq as u64);
        Frac2 { nx: v.x * max, ny: v.y * max, den: den_u as i64 }
    }
}

/// The intermediate products of the length clamp stay inside `i64`.
proof fn lemma_clamp_ranges(v: Vec2i, max: i64)
    requires
        clamp_pre(v, max),
    ensures
        0 <= v.x * v.x <= 4_000_000_000_000_000_000,
        0 <= v.y * v.y <= 4_000_000_000_000_000_000,
        0 <= max * max <= 4_000_000_000_000_000_000,
        -2_000_000_000_000_000_000 <= v.x * max <= 2_000_000_000_000_000_000,
        -2_000_000_000_000_000_000 <= v.y * max <= 2_000_000_000_000_000_000,
{
    assert(0 <= v.x * v.x <= 4_000_000_000_000_000_000) by (nonlinear_arith)
        requires
            -2 * COORD_LIMIT <= v.x <= 2 * COORD_LIMIT,
    ;
    assert(0 <= v.y * v.y <= 4_000_000_000_000_000_000) by (nonlinear_arith)
        requires
            -2 * COORD_LIMIT <= v.y <= 2 * COORD_LIMIT,
    ;
    assert(0 <= max * max <= 4_000_000_000_000_000_000) by (nonlinear_arith)
        requires
            0 <= max <= COORD_LIMIT,
    ;
    assert(-2_000_000_000_000_000_000 <= v.x * max <= 2_000_000_000_000_000_000)
        by (nonlinear_arith)
        requires
            -2 * COORD_LIMIT <= v.x <= 2 * COORD_LIMIT,
            0 <= max <= COORD_LIMIT,
    ;
    assert(-2_000_000_000_000_000_000 <= v.y * max <= 2_000_000_000_000_000_000)
        by (nonlinear_arith)
        requires
            -2 * COORD_LIMIT <= v.y <= 2 * COORD_LIMIT,
            0 <= max <= COORD_LIMIT,
    ;
}

/// The clamped vector is never longer than `max` and keeps the exact
/// direction of `v`: the cross product with `v` is zero, each component
/// keeps its sign, and with a positive cap a nonzero vector stays nonzero.
pub proof fn lemma_clamp_length_bounded(v: Vec2i, max: i64)
    requires
        clamp_pre(v, max),
    ensures
        ({
            let r = clamp_spec(v, max);
            &&& r.den >= 1
            &&& r.nx * r.nx + r.ny * r.ny <= (max * max) * (r.den * r.den)
            &&& r.nx * v.y == r.ny * v.x
            &&& r.nx * v.x >= 0
            &&& r.ny * v.y >= 0
            &&& (max > 0 && (v.x != 0 || v.y != 0)) ==> (r.nx != 0 || r.ny != 0)
        }),
{
    lemma_clamp_ranges(v, max);
    let r = clamp_spec(v, max);
    let sq = v.x * v.x + v.y * v.y;
    if sq <= max * max {
        assert(r.nx == v.x && r.ny == v.y && r.den == 1);
        assert(v.x * v.y == v.y * v.x) by (nonlinear_arith);
        assert(v.x * v.x >= 0) by (nonlinear_arith);
        assert(v.y * v.y >= 0) by (nonlinear_arith);
        assert(v.x * v.x + v.y * v.y <= (max * max) * (1 * 1)) by (nonlinear_arith)
            requires
                v.x * v.x + v.y * v.y <= max * max,
        ;
    } else {
        let d = ceil_sqrt(sq);
        assert(is_ceil_sqrt(sq, d)) by {
            lemma_ceil_sqrt_exists(sq);
        }
        assert(d * d >= sq);
        assert(d >= 1) by (nonlinear_arith)
            requires
                d >= 0,
                d * d >= sq,
                sq > max * max,
                max * max >= 0,
        ;
        assert((d - 1) * (d - 1) < sq);
        assert(d <= 0x1_0000_0000) by (nonlinear_arith)
            requires
                d >= 1,
                (d - 1) * (d - 1) < sq,
                sq <= 8_000_000_000_000_000_000,
        ;
        assert(r.nx == v.x * max && r.ny == v.y * max && r.den == d);
        assert((v.x * max) * (v.x * max) + (v.y * max) * (v.y * max) <= (max * max) * (d * d))
            by (nonlinear_arith)
            requires
                v.x * v.x + v.y * v.y <= d * d,
                0 <= max,
        ;
        assert((v.x * max) * v.y == (v.y * max) * v.x) by (nonlinear_arith);
        assert((v.x * max) * v.x >= 0) by (nonlinear_arith)
            requires
                0 <= max,
        ;
        assert((v.y * max) * v.y >= 0) by (nonlinear_arith)
            requires
                0 <= max,
        ;
        if max > 0 && (v.x != 0 || v.y != 0) {
            if v.x != 0 {
                assert(v.x * max != 0) by (nonlinear_arith)
                    requires
                        v.x != 0 && max > 0,
                ;
            } else {
                assert(v.y * max != 0) by (nonlinear_arith)
                    requires
                        v.y != 0 && max > 0,
                ;
            }
        }
    }
}

/// Some integer is the ceiling square root of any `n` within the `i64`
/// square range.
pub proof fn lemma_ceil_sqrt_exists(n: int)
    requires
        n <= 0x8000_0000_0000_0000,
    ensures
        is_ceil_sqrt(n, ceil_sqrt(n)),
{
    if n <= 0 {
        assert(is_ceil_sqrt(n, 0));
    } else {
        lemma_ceil_sqrt_exists_rec(n, 0x1_0000_0000);
    }
    assert(exists|r: int| is_ceil_sqrt(n, r));
    let w = choose|r: int| is_ceil_sqrt(n, r);
    assert(is_ceil_sqrt(n, w));
}

/// Downward induction: some `r <= c` with `r * r >= n` satisfies
/// `is_ceil_sqrt(n, r)` provided `c` itself squares to at least `n`.
proof fn lemma_ceil_sqrt_exists_rec(n: int, c: int)
    requires
        n >= 1,
        c >= 1,
        c * c >= n,
    ensures
        exists|r: int| is_ceil_sqrt(n, r),
    decreases c,
{
    if (c - 1) * (c - 1) < n {
        assert(is_ceil_sqrt(n, c));
    } else {
        assert(c - 1 >= 1) by (nonlinear_arith)
            requires
                c >= 1,
                n >= 1,
                (c - 1) * (c - 1) >= n,
        ;
        lemma_ceil_sqrt_exists_rec(n, c - 1);
    }
}

/// Division that truncates toward zero, matching Rust's `/` on integers.
pub open spec fn div_trunc(n: int, d: int) -> int
    recommends
        d >= 1,
{
    if n >= 0 {
        n / d
    } else {
        -((-n) / d)
    }
}

/// Truncating division on machine integers.
pub fn div_trunc_i64(n: i64, d: i64) -> (q: i64)
    requires
        d >= 1,
        n > i64::MIN,
    ensures
        q == div_trunc(n as int, d as int),
{
    if n >= 0 {
        let m: u64 = n as u64;
        let q0: u64 = m / (d as u64);
        proof {
            vstd::arithmetic::div_mod::lemma_div_nonincreasing(m as int, d as int);
        }
        q0 as i64
    } else {
        let m: u64 = (-n) as u64;
        let q0: u64 = m / (d as u64);
        proof {
            vstd::arithmetic::div_mod::lemma_div_nonincreasing(m as int, d as int);
            vstd::arithmetic::div_mod::lemma_div_pos_is_pos(m as int, d as int);
        }
        -(q0 as i64)
    }
}

/// A quotient bound: if `|n| <= b * d` then `|div_trunc(n, d)| <= b`.
pub proof fn lemma_div_trunc_bound(n: int, d: int, b: int)
    requires
        d >= 1,
        0 <= b,
        -b * d <= n <= b * d,
    ensures
        -b <= div_trunc(n, d) <= b,
        n >= 0 ==> div_trunc(n, d) >= 0,
        n <= 0 ==> div_trunc(n, d) <= 0,
{
    assert((-b) * d == -(b * d)) by (nonlinear_arith);
    if n >= 0 {
        vstd::arithmetic::div_mod::lemma_div_is_ordered(0, n, d);
        vstd::arithmetic::div_mod::lemma_div_of0(d);
        vstd::arithmetic::div_mod::lemma_div_is_ordered(n, b * d, d);
        vstd::arithmetic::div_mod::lemma_div_by_multiple(b, d);
    } else {
        vstd::arithmetic::div_mod::lemma_div_is_ordered(0, -n, d);
        vstd::arithmetic::div_mod::lemma_div_of0(d);
        vstd::arithmetic::div_mod::lemma_div_is_ordered(-n, b * d, d);
        vstd::arithmetic::div_mod::lemma_div_by_multiple(b, d);
    }
}

/// Computes `div_trunc(n * m, d)` without overflowing, for a nonnegative
/// factor `m` and a numerator bounded by `COORD_LIMIT * d`.
pub fn mul_div_trunc(n: i64, m: i64, d: i64) -> (q: i64)
    requires
        d >= 1,
        n > i64::MIN,
        0 <= m <= 1_000_000,
        -COORD_LIMIT * d <= n <= COORD_LIMIT * d,
    ensures
        q == div_trunc(n * m, d as int),
        -COORD_LIMIT * m <= q <= COORD_LIMIT * m,
{
    let a: u64 = if n >= 0 {
        n as u64
    } else {
        (-n) as u64
    };
    proof {
        lemma_mul_div_trunc_ranges(a as int, n as int, m as int, d as int);
        assert((a as int) * (m as int) <= 0x7fff_ffff_ffff_ffff * 1_000_000) by (nonlinear_arith)
            requires
                0 <= a <= 0x7fff_ffff_ffff_ffff,
                0 <= m <= 1_000_000,
        ;
    }
    let p: u128 = (a as u128) * (m as u128);
    let q0: u128 = p / (d as u128);
    if n >= 0 {
        q0 as i64
    } else {
        -(q0 as i64)
    }
}

/// Range facts behind `mul_div_trunc`, with `a == |n|`: the product fits
/// `u128`, the quotient fits the stated bound, and the signed quotient is
/// the truncating division of `n * m`.
proof fn lemma_mul_div_trunc_ranges(a: int, n: int, m: int, d: int)
    requires
        d >= 1,
        0 <= m <= 1_000_000,
        -COORD_LIMIT * d <= n <= COORD_LIMIT * d,
        a == if n >= 0 { n } else { -n },
    ensures
        0 <= a * m <= (COORD_LIMIT * m) * d,
        (a * m) / d <= COORD_LIMIT * m,
        0 <= (a * m) / d,
        COORD_LIMIT * m <= 0x7fff_ffff_ffff_ffff,
        n >= 0 ==> (a * m) / d == div_trunc(n * m, d),
        n < 0 ==> -((a * m) / d) == div_trunc(n * m, d),
{
    assert(-COORD_LIMIT * d == -(COORD_LIMIT * d)) by (nonlinear_arith);
    assert(0 <= a <= COORD_LIMIT * d);
    assert(0 <= a * m) by (nonlinear_arith)
        requires
            0 <= a && 0 <= m,
    ;
    assert(a * m <= (COORD_LIMIT * m) * d) by (nonlinear_arith)
        requires
            0 <= a <= COORD_LIMIT * d,
            0 <= m,
            d >= 1,
    ;
    vstd::arithmetic::div_mod::lemma_div_is_ordered(a * m, (COORD_LIMIT * m) * d, d);
    vstd::arithmetic::div_mod::lemma_div_by_multiple(COORD_LIMIT * m, d);
    vstd::arithmetic::div_mod::lemma_div_pos_is_pos(a * m, d);
    assert(COORD_LIMIT * m <= 0x7fff_ffff_ffff_ffff) by (nonlinear_arith)
        requires
            0 <= m <= 1_000_000,
    ;
    if n >= 0 {
        assert(a * m == n * m);
        assert(n * m >= 0) by (nonlinear_arith)
            requires
                n >= 0 && m >= 0,
        ;
    } else {
        assert(a * m == -(n * m)) by (nonlinear_arith)
            requires
                a == -n,
        ;
        assert(n * m <= 0) by (nonlinear_arith)
            requires
                n < 0 && m >= 0,
        ;
        if n * m == 0 {
            assert(div_trunc(n * m, d) == 0) by {
                vstd::arithmetic::div_mod::lemma_div_of0(d);
            }
        }
    }
}

} // verus!
