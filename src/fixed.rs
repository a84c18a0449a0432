//! Fixed-point scalars and vectors, counted in thousandths of a unit.
use vstd::arithmetic::div_mod::{lemma_div_is_ordered, lemma_div_pos_is_pos, lemma_div_by_multiple};
use vstd::prelude::*;

verus! {

/// One unit in fixed point: a value `v` stands for `v / SCALE`.
pub const SCALE: i64 = 1000;

/// Largest magnitude of a coordinate or velocity component (a billion units).
pub const MAX_COORD: i64 = 1_000_000_000_000;

/// A horizontal 2D vector in thousandths.
#[derive(Clone, Copy, Debug, PartialEq, Eq, Structural)]
pub struct Vec2 {
    pub x: i64,
    pub y: i64,
}

/// A 3D vector in thousandths; `y` points up.
#[derive(Clone, Copy, Debug, PartialEq, Eq, Structural)]
pub struct Vec3 {
    pub x: i64,
    pub y: i64,
    pub z: i64,
}

pub open spec fn abs(a: int) -> int {
    if a < 0 { -a } else { a }
}

/// Division that rounds toward zero, as integer division does on machine integers.
pub open spec fn div_trunc(a: int, d: int) -> int {
    if a >= 0 { a / d } else { -((-a) / d) }
}

/// `a * b / SCALE`, rounded toward zero: the fixed-point product.
pub open spec fn fmul(a: int, b: int) -> int {
    div_trunc(a * b, SCALE as int)
}

pub open spec fn is_sqrt_floor(n: int, r: int) -> bool {
    0 <= r && r * r <= n && n < (r + 1) * (r + 1)
}

/// The integer square root: the largest `r` with `r * r <= n`.
pub open spec fn sqrt_floor(n: int) -> int {
    choose|r: int| is_sqrt_floor(n, r)
}

pub open spec fn within(v: Vec3, bound: int) -> bool {
    abs(v.x as int) <= bound && abs(v.y as int) <= bound && abs(v.z as int) <= bound
}

pub open spec fn within2(v: Vec2, bound: int) -> bool {
    abs(v.x as int) <= bound && abs(v.y as int) <= bound
}

pub open spec fn norm_sq(v: Vec3) -> int {
    v.x * v.x + v.y * v.y + v.z * v.z
}

/// The length of `v`, rounded down.
pub open spec fn length_spec(v: Vec3) -> int {
    sqrt_floor(norm_sq(v))
}

pub open spec fn scaled(v: Vec3, k: int) -> Vec3 {
    Vec3 { x: fmul(v.x as int, k) as i64, y: fmul(v.y as int, k) as i64, z: fmul(v.z as int, k) as i64 }
}

pub open spec fn added(a: Vec3, b: Vec3) -> Vec3 {
    Vec3 { x: (a.x + b.x) as i64, y: (a.y + b.y) as i64, z: (a.z + b.z) as i64 }
}

/// `v` brought to length one (`SCALE`), each component rounded toward zero;
/// `None` for the zero vector, which has no direction.
pub open spec fn unit_spec(v: Vec3) -> Option<Vec3> {
    if norm_sq(v) == 0 {
        None
    } else {
        let len = length_spec(v);
        Some(
            Vec3 {
                x: div_trunc(v.x * SCALE, len) as i64,
                y: div_trunc(v.y * SCALE, len) as i64,
                z: div_trunc(v.z * SCALE, len) as i64,
            },
        )
    }
}

proof fn lemma_sqrt_floor_unique(n: int, a: int, b: int)
    requires
        is_sqrt_floor(n, a),
        is_sqrt_floor(n, b),
    ensures
        a == b,
{
    if a < b {
        assert((a + 1) * (a + 1) <= b * b) by (nonlinear_arith)
            requires
                0 <= a + 1 <= b,
        ;
    } else if b < a {
        assert((b + 1) * (b + 1) <= a * a) by (nonlinear_arith)
            requires
                0 <= b + 1 <= a,
        ;
    }
}

proof fn lemma_is_sqrt_floor(n: int, r: int)
    requires
        is_sqrt_floor(n, r),
    ensures
        sqrt_floor(n) == r,
{
    assert(exists|s: int| is_sqrt_floor(n, s));
    lemma_sqrt_floor_unique(n, r, sqrt_floor(n));
}

/// Integer square root by bisection.
pub fn isqrt(n: u128) -> (r: u64)
    ensures
        r == sqrt_floor(n as int),
{
    let mut lo: u128 = 0;
    let mut hi: u128 = 0x1_0000_0000_0000_0000;
    assert(n < hi * hi) by (nonlinear_arith)
        requires
            hi == 0x1_0000_0000_0000_0000u128,
            n <= u128::MAX,
    ;
    while lo + 1 < hi
        invariant
            lo < hi <= 0x1_0000_0000_0000_0000u128,
            lo * lo <= n,
            n < hi * hi,
        decreases hi - lo,
    {
        let mid: u128 = lo + (hi - lo) / 2;
        assert(mid * mid < 0x1_0000_0000_0000_0000_0000_0000_0000_0000int) by (nonlinear_arith)
            requires
                mid < 0x1_0000_0000_0000_0000u128,
        ;
        if mid * mid <= n {
            lo = mid;
        } else {
            hi = mid;
        }
    }
    proof {
        lemma_is_sqrt_floor(n as int, lo as int);
    }
    lo as u64
}

/// `a * b / d` rounded toward zero, computed without intermediate overflow.
pub fn mul_div(a: i64, b: i64, d: i64) -> (r: i64)
    requires
        d > 0,
        i64::MIN <= div_trunc(a * b, d as int) <= i64::MAX,
    ensures
        r == div_trunc(a * b, d as int),
{
    assert(abs(a * b) <= 0x4000_0000_0000_0000_0000_0000_0000_0000) by (nonlinear_arith)
        requires
            i64::MIN <= a <= i64::MAX,
            i64::MIN <= b <= i64::MAX,
    ;
    let p: i128 = a as i128 * b as i128;
    if p >= 0 {
        let q: u128 = (p as u128) / (d as u128);
        q as i64
    } else {
        let q: u128 = ((-p) as u128) / (d as u128);
        -(q as i128) as i64
    }
}

/// The fixed-point product `a * b / SCALE`, rounded toward zero.
pub fn fixed_mul(a: i64, b: i64) -> (r: i64)
    requires
        i64::MIN <= fmul(a as int, b as int) <= i64::MAX,
    ensures
        r == fmul(a as int, b as int),
{
    mul_div(a, b, SCALE)
}

/// `a * k / d` is at most `k` in size when `a` is at most `d` in size.
pub proof fn lemma_div_trunc_bound(a: int, d: int, k: int)
    requires
        d > 0,
        k >= 0,
        abs(a) <= d,
    ensures
        abs(div_trunc(a * k, d)) <= k,
{
    let p = abs(a) * k;
    assert(abs(a * k) == p && 0 <= p <= k * d) by (nonlinear_arith)
        requires
            k >= 0,
            p == abs(a) * k,
            abs(a) == if a < 0 { -a } else { a },
            abs(a * k) == if a * k < 0 { -(a * k) } else { a * k },
            abs(a) <= d,
    ;
    lemma_div_is_ordered(p, k * d, d);
    lemma_div_by_multiple(k, d);
    lemma_div_pos_is_pos(p, d);
}

/// A fixed-point product is bounded by the product of the factors' bounds.
pub proof fn lemma_fmul_bound(a: int, b: int, ba: int, bb: int)
    requires
        abs(a) <= ba,
        abs(b) <= bb,
    ensures
        abs(fmul(a, b)) <= (ba * bb) / SCALE as int,
{
    let p = abs(a * b);
    assert(p <= ba * bb) by (nonlinear_arith)
        requires
            abs(a) <= ba,
            abs(b) <= bb,
            p == abs(a * b),
            abs(a) == if a < 0 { -a } else { a },
            abs(b) == if b < 0 { -b } else { b },
            p == if a * b < 0 { -(a * b) } else { a * b },
    ;
    lemma_div_is_ordered(p, ba * bb, SCALE as int);
    lemma_div_pos_is_pos(p, SCALE as int);
}

/// Multiplying by a factor in `[-SCALE, SCALE]` does not grow a value.
pub proof fn lemma_fmul_unit(a: int, b: int, ba: int)
    requires
        abs(a) <= ba,
        abs(b) <= SCALE,
    ensures
        abs(fmul(a, b)) <= ba,
{
    lemma_fmul_bound(a, b, ba, SCALE as int);
    if ba >= 0 {
        lemma_div_by_multiple(ba, SCALE as int);
    }
}

/// A unit-bounded vector scaled by `k >= 0` stays within `k`.
pub proof fn lemma_scaled_axis(v: Vec3, k: int)
    requires
        within(v, SCALE as int),
        0 <= k <= MAX_COORD,
    ensures
        within(scaled(v, k), k),
        abs(fmul(v.x as int, k)) <= k,
        abs(fmul(v.y as int, k)) <= k,
        abs(fmul(v.z as int, k)) <= k,
{
    lemma_fmul_bound(v.x as int, k, SCALE as int, k);
    lemma_fmul_bound(v.y as int, k, SCALE as int, k);
    lemma_fmul_bound(v.z as int, k, SCALE as int, k);
    lemma_div_by_multiple(k, SCALE as int);
    assert(SCALE * k == k * SCALE) by (nonlinear_arith);
}

impl Vec2 {
    pub fn new(x: i64, y: i64) -> (r: Vec2)
        ensures
            r == (Vec2 { x, y }),
    {
        Vec2 { x, y }
    }

    pub fn zero() -> (r: Vec2)
        ensures
            r == (Vec2 { x: 0, y: 0 }),
    {
        Vec2 { x: 0, y: 0 }
    }
}

impl Vec3 {
    pub fn new(x: i64, y: i64, z: i64) -> (r: Vec3)
        ensures
            r == (Vec3 { x, y, z }),
    {
        Vec3 { x, y, z }
    }

    pub fn zero() -> (r: Vec3)
        ensures
            r == (Vec3 { x: 0, y: 0, z: 0 }),
    {
        Vec3 { x: 0, y: 0, z: 0 }
    }

    /// The squared length, in millionths.
    pub fn length_squared(&self) -> (r: u128)
        requires
            within(*self, MAX_COORD as int),
        ensures
            r == norm_sq(*self),
    {
        proof {
            lemma_square_bound(self.x as int);
            lemma_square_bound(self.y as int);
            lemma_square_bound(self.z as int);
        }
        let x = self.x as i128;
        let y = self.y as i128;
        let z = self.z as i128;
        (x * x + y * y + z * z) as u128
    }

    /// The length, rounded down.
    pub fn length(&self) -> (r: i64)
        requires
            within(*self, MAX_COORD as int),
        ensures
            r == length_spec(*self),
            r >= 0,
    {
        let sq = self.length_squared();
        let r = isqrt(sq);
        proof {
            lemma_length_bound(*self);
        }
        r as i64
    }

    /// The vector of length one (`SCALE`) with the same direction; `None`
    /// for the zero vector.
    pub fn normalize(&self) -> (r: Option<Vec3>)
        requires
            within(*self, MAX_COORD as int),
        ensures
            r == unit_spec(*self),
            r matches Some(u) ==> within(u, SCALE as int),
    {
        let sq = self.length_squared();
        if sq == 0 {
            return None;
        }
        let len = self.length();
        proof {
            lemma_length_bound(*self);
            lemma_component_le_length(*self);
            lemma_div_trunc_bound(self.x as int, len as int, SCALE as int);
            lemma_div_trunc_bound(self.y as int, len as int, SCALE as int);
            lemma_div_trunc_bound(self.z as int, len as int, SCALE as int);
        }
        Some(
            Vec3 {
                x: mul_div(self.x, SCALE, len),
                y: mul_div(self.y, SCALE, len),
                z: mul_div(self.z, SCALE, len),
            },
        )
    }

    /// Each component multiplied by the fixed-point factor `k`.
    pub fn scale(&self, k: i64) -> (r: Vec3)
        requires
            i64::MIN <= fmul(self.x as int, k as int) <= i64::MAX,
            i64::MIN <= fmul(self.y as int, k as int) <= i64::MAX,
            i64::MIN <= fmul(self.z as int, k as int) <= i64::MAX,
        ensures
            r == scaled(*self, k as int),
    {
        Vec3 { x: fixed_mul(self.x, k), y: fixed_mul(self.y, k), z: fixed_mul(self.z, k) }
    }

    /// The component-wise sum.
    pub fn add(&self, o: &Vec3) -> (r: Vec3)
        requires
            i64::MIN <= self.x + o.x <= i64::MAX,
            i64::MIN <= self.y + o.y <= i64::MAX,
            i64::MIN <= self.z + o.z <= i64::MAX,
        ensures
            r == added(*self, *o),
    {
        Vec3 { x: self.x + o.x, y: self.y + o.y, z: self.z + o.z }
    }

    /// The projection onto the horizontal plane (`y` set to zero).
    pub fn horizontal(&self) -> (r: Vec3)
        ensures
            r == (Vec3 { x: self.x, y: 0, z: self.z }),
    {
        Vec3 { x: self.x, y: 0, z: self.z }
    }
}

proof fn lemma_square_bound(c: int)
    requires
        abs(c) <= MAX_COORD,
    ensures
        0 <= c * c <= 1_000_000_000_000_000_000_000_000,
{
    assert(0 <= c * c <= 1_000_000_000_000_000_000_000_000) by (nonlinear_arith)
        requires
            -1_000_000_000_000 <= c <= 1_000_000_000_000,
    ;
}

proof fn lemma_length_bound(v: Vec3)
    requires
        within(v, MAX_COORD as int),
    ensures
        is_sqrt_floor(norm_sq(v), length_spec(v)),
        0 <= length_spec(v) <= 2 * MAX_COORD,
{
    lemma_square_bound(v.x as int);
    lemma_square_bound(v.y as int);
    lemma_square_bound(v.z as int);
    let n = norm_sq(v);
    let r: int = 2 * MAX_COORD;
    assert(n < (r + 1) * (r + 1)) by (nonlinear_arith)
        requires
            0 <= n <= 3_000_000_000_000_000_000_000_000,
            r == 2_000_000_000_000,
    ;
    lemma_sqrt_floor_exists(n, r);
    let s = length_spec(v);
    if s > r {
        assert((r + 1) * (r + 1) <= s * s) by (nonlinear_arith)
            requires
                0 <= r + 1 <= s,
        ;
    }
}

/// Every `n` in `0 ..= bound²+2bound` has an integer square root at most `bound`.
proof fn lemma_sqrt_floor_exists(n: int, bound: int)
    requires
        0 <= n < (bound + 1) * (bound + 1),
        bound >= 0,
    ensures
        is_sqrt_floor(n, sqrt_floor(n)),
    decreases bound,
{
    if n < bound * bound {
        assert(bound > 0) by (nonlinear_arith)
            requires
                0 <= n < bound * bound,
                bound >= 0,
        ;
        lemma_sqrt_floor_exists(n, bound - 1);
    } else {
        assert(is_sqrt_floor(n, bound));
    }
}

proof fn lemma_component_le_length(v: Vec3)
    requires
        within(v, MAX_COORD as int),
        norm_sq(v) > 0,
    ensures
        abs(v.x as int) <= length_spec(v),
        abs(v.y as int) <= length_spec(v),
        abs(v.z as int) <= length_spec(v),
        length_spec(v) > 0,
{
    lemma_length_bound(v);
    let len = length_spec(v);
    let n = norm_sq(v);
    assert(v.x * v.x >= 0 && v.y * v.y >= 0 && v.z * v.z >= 0) by (nonlinear_arith);
    lemma_abs_le_root(v.x as int, n, len);
    lemma_abs_le_root(v.y as int, n, len);
    lemma_abs_le_root(v.z as int, n, len);
    if len == 0 {
        assert(n < 1);
    }
}

proof fn lemma_abs_le_root(c: int, n: int, len: int)
    requires
        c * c <= n,
        is_sqrt_floor(n, len),
    ensures
        abs(c) <= len,
{
    let a = abs(c);
    assert(a * a == c * c) by (nonlinear_arith)
        requires
            a == if c < 0 { -c } else { c },
    ;
    if a > len {
        assert((len + 1) * (len + 1) <= a * a) by (nonlinear_arith)
            requires
                0 <= len + 1 <= a,
        ;
    }
}

} // verus!
