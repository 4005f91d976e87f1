//! Integer vectors (millimetres, millimetres per second).

use crate::proto::CpVector2;
use vstd::prelude::*;

verus! {

/// An integer vector.
#[derive(Debug, Clone, Copy, PartialEq, Eq, Structural)]
pub struct Vec2i {
    pub x: i32,
    pub y: i32,
}

/// The absolute value of a component.
pub open spec fn abs_i32(v: i32) -> int {
    if v >= 0 {
        v as int
    } else {
        -v
    }
}

/// The squared Euclidean norm.
pub open spec fn norm_sq(v: Vec2i) -> int {
    v.x * v.x + v.y * v.y
}

/// `v` clamped into the `i32` range.
pub open spec fn saturate_i32(v: int) -> i32 {
    if v > i32::MAX {
        i32::MAX
    } else if v < i32::MIN {
        i32::MIN
    } else {
        v as i32
    }
}

/// `q` is the integer nearest to `a / sqrt(b)`, a half rounded up.
pub open spec fn round_div_sqrt(q: int, a: int, b: int) -> bool {
    &&& 0 <= q
    &&& 4 * a * a < (2 * q + 1) * (2 * q + 1) * b
    &&& (q == 0 || (2 * q - 1) * (2 * q - 1) * b <= 4 * a * a)
}

/// `r` is the component `c` scaled by `max / sqrt(n2)` and rounded to the
/// nearest integer, halves away from zero.
pub open spec fn scaled_component(c: i32, r: i32, max: u32, n2: int) -> bool {
    if c >= 0 {
        r >= 0 && round_div_sqrt(r as int, c * max, n2)
    } else {
        r <= 0 && round_div_sqrt(-r, -c * max, n2)
    }
}

/// Whether `4 a^2 < (2q+1)^2 b`, computed without overflow.
fn below_upper_half(q: u64, a: u64, b: u64) -> (r: bool)
    requires
        q <= 0x8000_0000,
        a < 0x8000_0000_0000_0000,
    ensures
        r == (4 * a * a < (2 * q + 1) * (2 * q + 1) * b),
{
    let two_a: u128 = 2u128 * (a as u128);
    assert(two_a * two_a < 0x1_0000_0000_0000_0000_0000_0000_0000_0000) by (nonlinear_arith)
        requires
            two_a < 0x1_0000_0000_0000_0000,
    ;
    let four_a2: u128 = two_a * two_a;
    let k: u128 = 2u128 * (q as u128) + 1u128;
    assert(k * k <= 0x4_0000_0004_0000_0001) by (nonlinear_arith)
        requires
            k <= 0x1_0000_0001,
    ;
    let k2: u128 = k * k;
    assert(4 * a * a == four_a2) by (nonlinear_arith)
        requires
            two_a == 2 * a,
            four_a2 == two_a * two_a,
    ;
    assert((2 * q + 1) * (2 * q + 1) * b == k2 * b) by (nonlinear_arith)
        requires
            k == 2 * q + 1,
            k2 == k * k,
    ;
    match k2.checked_mul(b as u128) {
        Some(p) => four_a2 < p,
        None => true,
    }
}

/// The integer nearest to `a / sqrt(b)`, found by bisection in `[0, hi]`.
fn round_div_sqrt_exec(a: u64, b: u64, hi: u64) -> (q: u64)
    requires
        hi <= 0x8000_0000,
        a < 0x8000_0000_0000_0000,
        4 * a * a < (2 * hi + 1) * (2 * hi + 1) * b,
    ensures
        q <= hi,
        round_div_sqrt(q as int, a as int, b as int),
{
    let mut lo: u64 = 0;
    let mut up: u64 = hi;
    while lo < up
        invariant
            lo <= up <= hi,
            hi <= 0x8000_0000,
            a < 0x8000_0000_0000_0000,
            4 * a * a < (2 * up + 1) * (2 * up + 1) * b,
            lo == 0 || (2 * lo - 1) * (2 * lo - 1) * b <= 4 * a * a,
        decreases up - lo,
    {
        let mid: u64 = lo + (up - lo) / 2;
        if below_upper_half(mid, a, b) {
            up = mid;
        } else {
            assert((2 * (mid + 1) - 1) * (2 * (mid + 1) - 1) * b == (2 * mid + 1) * (2 * mid + 1) * b);
            lo = mid + 1;
        }
    }
    lo
}

impl Vec2i {
    pub fn new(x: i32, y: i32) -> (r: Vec2i)
        ensures
            r == (Vec2i { x, y }),
    {
        Vec2i { x, y }
    }

    pub fn new_from_cp(v: CpVector2) -> (r: Vec2i)
        ensures
            r == (Vec2i { x: v.x, y: v.y }),
    {
        Vec2i::new(v.x, v.y)
    }

    pub fn from_cp_vec2(v: &CpVector2) -> (r: Vec2i)
        ensures
            r == (Vec2i { x: v.x, y: v.y }),
    {
        Vec2i { x: v.x, y: v.y }
    }

    /// The squared norm (it must fit an `i32`).
    pub fn norm_squared(self) -> (r: i32)
        requires
            norm_sq(self) <= i32::MAX,
        ensures
            r == norm_sq(self),
    {
        assert(0 <= self.x * self.x && 0 <= self.y * self.y) by (nonlinear_arith);
        self.x * self.x + self.y * self.y
    }

    /// The vector scaled down to speed `max_speed_mm_s` if it is faster; each
    /// component of a scaled vector is rounded to the nearest integer.
    pub fn with_speed_clamped(self, max_speed_mm_s: u32) -> (r: Vec2i)
        ensures
            norm_sq(self) == 0 ==> r == (Vec2i { x: 0, y: 0 }),
            0 < norm_sq(self) <= max_speed_mm_s * max_speed_mm_s ==> r == self,
            norm_sq(self) > max_speed_mm_s * max_speed_mm_s ==> {
                &&& scaled_component(self.x, r.x, max_speed_mm_s, norm_sq(self))
                &&& scaled_component(self.y, r.y, max_speed_mm_s, norm_sq(self))
                &&& norm_sq(r) <= (max_speed_mm_s + 1) * (max_speed_mm_s + 1)
            },
            abs_i32(r.x) <= abs_i32(self.x),
            abs_i32(r.y) <= abs_i32(self.y),
    {
        let ax: u64 = if self.x >= 0 { self.x as u64 } else { (-(self.x as i64)) as u64 };
        let ay: u64 = if self.y >= 0 { self.y as u64 } else { (-(self.y as i64)) as u64 };
        assert(ax * ax <= 0x4000_0000_0000_0000 && ay * ay <= 0x4000_0000_0000_0000) by (nonlinear_arith)
            requires
                ax <= 0x8000_0000,
                ay <= 0x8000_0000,
        ;
        let n2: u64 = ax * ax + ay * ay;
        assert(n2 == norm_sq(self)) by (nonlinear_arith)
            requires
                n2 == ax * ax + ay * ay,
                ax == self.x || ax == -self.x,
                ay == self.y || ay == -self.y,
        ;
        if n2 == 0 {
            return Vec2i { x: 0, y: 0 };
        }
        let m: u64 = max_speed_mm_s as u64;
        assert(m * m <= 0xFFFF_FFFE_0000_0001) by (nonlinear_arith) requires m <= 0xFFFF_FFFF;
        if n2 <= m * m {
            return self;
        }
        let rx = Self::scale_component(self.x, ax, m, n2);
        let ry = Self::scale_component(self.y, ay, m, n2);
        let r = Vec2i { x: rx, y: ry };
        proof {
            lemma_clamped_norm_bound(self, max_speed_mm_s, r);
        }
        r
    }

    /// One component of `with_speed_clamped`, for `n2 > m * m`.
    fn scale_component(c: i32, ac: u64, m: u64, n2: u64) -> (r: i32)
        requires
            ac == c || ac == -c,
            ac <= 0x8000_0000,
            m <= u32::MAX,
            ac * ac <= n2,
            n2 > m * m,
        ensures
            scaled_component(c, r, m as u32, n2 as int),
            -ac <= r <= ac,
    {
        assert(ac * m < 0x8000_0000_0000_0000) by (nonlinear_arith)
            requires
                ac <= 0x8000_0000,
                m <= u32::MAX,
        ;
        let a: u64 = ac * m;
        proof {
            if ac == 0 {
                assert(a == 0) by (nonlinear_arith) requires a == ac * m, ac == 0;
                assert(4 * a * a == 0) by (nonlinear_arith) requires a == 0;
                assert((2 * ac + 1) * (2 * ac + 1) * n2 == n2) by (nonlinear_arith) requires ac == 0;
            } else {
                assert(4 * a * a < (2 * ac + 1) * (2 * ac + 1) * n2) by (nonlinear_arith)
                    requires
                        a == ac * m,
                        ac >= 1,
                        n2 > m * m,
                ;
            }
        }
        let q = round_div_sqrt_exec(a, n2, ac);
        if c >= 0 {
            assert(a == c * m);
            q as i32
        } else {
            assert(a == (-c) * m);
            assert(-c * m == (-c) * m) by (nonlinear_arith);
            (-(q as i64)) as i32
        }
    }

    /// Componentwise sum, saturating at the `i32` bounds.
    pub fn add(self, rhs: Vec2i) -> (r: Vec2i)
        ensures
            r.x == saturate_i32(self.x + rhs.x),
            r.y == saturate_i32(self.y + rhs.y),
    {
        Vec2i { x: saturate_i64(self.x as i64 + rhs.x as i64), y: saturate_i64(self.y as i64 + rhs.y as i64) }
    }

    /// Componentwise difference, saturating at the `i32` bounds.
    pub fn sub(self, rhs: Vec2i) -> (r: Vec2i)
        ensures
            r.x == saturate_i32(self.x - rhs.x),
            r.y == saturate_i32(self.y - rhs.y),
    {
        Vec2i { x: saturate_i64(self.x as i64 - rhs.x as i64), y: saturate_i64(self.y as i64 - rhs.y as i64) }
    }

    /// Scaling by an integer, saturating at the `i32` bounds.
    pub fn mul(self, rhs: i32) -> (r: Vec2i)
        ensures
            r.x == saturate_i32(self.x * rhs),
            r.y == saturate_i32(self.y * rhs),
    {
        assert(-0x4000_0000_0000_0000 <= self.x * rhs <= 0x4000_0000_0000_0000) by (nonlinear_arith);
        assert(-0x4000_0000_0000_0000 <= self.y * rhs <= 0x4000_0000_0000_0000) by (nonlinear_arith);
        Vec2i {
            x: saturate_i64(self.x as i64 * rhs as i64),
            y: saturate_i64(self.y as i64 * rhs as i64),
        }
    }
}

fn saturate_i64(v: i64) -> (r: i32)
    ensures
        r == saturate_i32(v as int),
{
    if v > i32::MAX as i64 {
        i32::MAX
    } else if v < i32::MIN as i64 {
        i32::MIN
    } else {
        v as i32
    }
}

impl Default for Vec2i {
    fn default() -> (r: Self)
        ensures
            r == (Vec2i { x: 0, y: 0 }),
    {
        Vec2i { x: 0, y: 0 }
    }
}

/// One component's share of the rounding bound: `u^2 b <= 4 a^2` where `u`
/// is `2q - 1` (or 0 for `q == 0`).
proof fn lemma_component_share(q: int, a: int, b: int) -> (u: int)
    requires
        round_div_sqrt(q, a, b),
        b > 0,
    ensures
        u >= 0,
        u * u * b <= 4 * a * a,
        2 * q <= u + 1,
{
    if q == 0 {
        assert(0 * 0 * b <= 4 * a * a) by (nonlinear_arith);
        0
    } else {
        assert((2 * q - 1) * (2 * q - 1) * b <= 4 * a * a);
        2 * q - 1
    }
}

/// A clamped vector is at most one unit faster than the limit: rounding
/// the two components adds less than one to the speed.
pub proof fn lemma_clamped_norm_bound(v: Vec2i, max: u32, r: Vec2i)
    requires
        norm_sq(v) > max * max,
        scaled_component(v.x, r.x, max, norm_sq(v)),
        scaled_component(v.y, r.y, max, norm_sq(v)),
    ensures
        norm_sq(r) <= (max + 1) * (max + 1),
{
    let b = norm_sq(v);
    let m = max as int;
    let ax = abs_i32(v.x);
    let ay = abs_i32(v.y);
    let qx = abs_i32(r.x);
    let qy = abs_i32(r.y);
    assert(b == ax * ax + ay * ay) by (nonlinear_arith)
        requires
            b == v.x * v.x + v.y * v.y,
            ax == v.x || ax == -v.x,
            ay == v.y || ay == -v.y,
    ;
    assert(norm_sq(r) == qx * qx + qy * qy) by (nonlinear_arith)
        requires
            qx == r.x || qx == -r.x,
            qy == r.y || qy == -r.y,
    ;
    assert(round_div_sqrt(qx, ax * m, b)) by {
        if v.x < 0 {
            assert(-v.x * max == ax * m);
        }
    }
    assert(round_div_sqrt(qy, ay * m, b)) by {
        if v.y < 0 {
            assert(-v.y * max == ay * m);
        }
    }
    let ux = lemma_component_share(qx, ax * m, b);
    let uy = lemma_component_share(qy, ay * m, b);
    assert(4 * (ax * m) * (ax * m) + 4 * (ay * m) * (ay * m) == (4 * m * m) * (ax * ax + ay * ay))
        by (nonlinear_arith);
    assert((ux * ux + uy * uy) * b == ux * ux * b + uy * uy * b) by (nonlinear_arith);
    assert((ux * ux + uy * uy) * b <= (4 * m * m) * b);
    assert(ux * ux + uy * uy <= 4 * m * m) by (nonlinear_arith)
        requires
            (ux * ux + uy * uy) * b <= (4 * m * m) * b,
            b > 0,
    ;
    assert(ux + uy <= 3 * m) by (nonlinear_arith)
        requires
            ux * ux + uy * uy <= 4 * m * m,
            ux >= 0,
            uy >= 0,
            m >= 0,
    ;
    assert(4 * (qx * qx + qy * qy) <= 4 * ((m + 1) * (m + 1))) by (nonlinear_arith)
        requires
            2 * qx <= ux + 1,
            2 * qy <= uy + 1,
            qx >= 0,
            qy >= 0,
            ux * ux + uy * uy <= 4 * m * m,
            ux + uy <= 3 * m,
            ux >= 0,
            uy >= 0,
    ;
}

} // verus!
