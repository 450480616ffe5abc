//! Fixed-point arithmetic.
//!
//! Every length, duration, speed and ratio of the game is a [`Fixed`]: a signed
//! count of millionths. Lengths are in screen units, durations in seconds and
//! speeds in units per second. Results are rounded toward zero and confined to
//! the range of the representation, so every operation is total.

use vstd::prelude::*;

verus! {

/// A real number, stored as a count of millionths.
pub type Fixed = i64;

/// The number one.
pub const ONE: Fixed = 1_000_000;

/// The representable value closest to `v`.
pub open spec fn clamp(v: int) -> Fixed {
    if v < i64::MIN {
        i64::MIN
    } else if v > i64::MAX {
        i64::MAX
    } else {
        v as i64
    }
}

/// The quotient of `n` by `d`, rounded toward zero.
pub open spec fn trunc_div(n: int, d: int) -> int
    recommends
        d != 0,
{
    if d > 0 {
        if n >= 0 {
            n / d
        } else {
            -((-n) / d)
        }
    } else {
        if n >= 0 {
            -(n / (-d))
        } else {
            (-n) / (-d)
        }
    }
}

/// `a + b`, confined to the representable range.
pub open spec fn sat_add(a: Fixed, b: Fixed) -> Fixed {
    clamp(a + b)
}

/// `a - b`, confined to the representable range.
pub open spec fn sat_sub(a: Fixed, b: Fixed) -> Fixed {
    clamp(a - b)
}

/// `-a`, confined to the representable range.
pub open spec fn sat_neg(a: Fixed) -> Fixed {
    clamp(-a)
}

/// The product of two fixed-point numbers, rounded toward zero and confined
/// to the representable range.
pub open spec fn sat_mul(a: Fixed, b: Fixed) -> Fixed {
    clamp(trunc_div(a * b, ONE as int))
}

/// The quotient of two fixed-point numbers, rounded toward zero and confined
/// to the representable range. Dividing by zero gives the extreme value on
/// the side of the dividend, and zero for a zero dividend.
pub open spec fn sat_div(a: Fixed, b: Fixed) -> Fixed {
    if b == 0 {
        if a > 0 {
            i64::MAX
        } else if a < 0 {
            i64::MIN
        } else {
            0
        }
    } else {
        clamp(trunc_div(a * ONE, b as int))
    }
}

/// Where a point at `x` stands after `dt` seconds at speed `v`.
pub open spec fn travel(x: Fixed, v: Fixed, dt: Fixed) -> Fixed {
    sat_add(x, sat_mul(v, dt))
}

/// The smaller of two numbers.
pub open spec fn lesser(a: Fixed, b: Fixed) -> Fixed {
    if a <= b {
        a
    } else {
        b
    }
}

/// Half of `a`, rounded toward zero.
pub open spec fn half(a: Fixed) -> Fixed {
    trunc_div(a as int, 2) as i64
}

/// The magnitude of the difference of two numbers.
pub open spec fn gap(a: Fixed, b: Fixed) -> int {
    if a >= b {
        a - b
    } else {
        b - a
    }
}

/// `v` moved into `[low, high]`: `low` wins where the bounds cross.
pub open spec fn confine(v: Fixed, low: Fixed, high: Fixed) -> Fixed {
    if v < low {
        low
    } else if v > high {
        high
    } else {
        v
    }
}

/// `r` is the integer square root of `n`.
pub open spec fn is_root(n: int, r: int) -> bool {
    0 <= r && r * r <= n < (r + 1) * (r + 1)
}

/// The integer square root of a non-negative number.
pub open spec fn root(n: int) -> int {
    choose|r: int| is_root(n, r)
}

/// The distance of the point `(x, y)` from the origin, rounded down and
/// confined to the representable range.
pub open spec fn norm(x: Fixed, y: Fixed) -> Fixed {
    clamp(root(x * x + y * y))
}

/// A number has at most one integer square root.
pub proof fn lemma_root_unique(n: int, r: int, s: int)
    requires
        is_root(n, r),
        is_root(n, s),
    ensures
        r == s,
{
    if r < s {
        assert((r + 1) * (r + 1) <= s * s) by (nonlinear_arith)
            requires
                0 <= r,
                r + 1 <= s,
        ;
    }
    if s < r {
        assert((s + 1) * (s + 1) <= r * r) by (nonlinear_arith)
            requires
                0 <= s,
                s + 1 <= r,
        ;
    }
}

/// A product with a factor that is not negative grows with the other
/// factor.
pub proof fn lemma_sat_mul_grows(a: Fixed, b: Fixed, c: Fixed)
    requires
        a >= 0,
        b <= c,
    ensures
        sat_mul(a, b) <= sat_mul(a, c),
{
    assert(a * b <= a * c) by (nonlinear_arith)
        requires
            a >= 0,
            b <= c,
    ;
    let low = a * b;
    let high = a * c;
    assert(trunc_div(low, 1_000_000) <= trunc_div(high, 1_000_000));
}

/// The representable value closest to `wide`.
fn narrow(wide: i128) -> (r: Fixed)
    ensures
        r == clamp(wide as int),
{
    if wide < i64::MIN as i128 {
        i64::MIN
    } else if wide > i64::MAX as i128 {
        i64::MAX
    } else {
        wide as i64
    }
}

/// `a + b`, confined to the representable range.
pub fn fixed_add(a: Fixed, b: Fixed) -> (r: Fixed)
    ensures
        r == sat_add(a, b),
{
    narrow(a as i128 + b as i128)
}

/// `a - b`, confined to the representable range.
pub fn fixed_sub(a: Fixed, b: Fixed) -> (r: Fixed)
    ensures
        r == sat_sub(a, b),
{
    narrow(a as i128 - b as i128)
}

/// `-a`, confined to the representable range.
pub fn fixed_neg(a: Fixed) -> (r: Fixed)
    ensures
        r == sat_neg(a),
{
    narrow(0 - a as i128)
}

/// The product of two fixed-point numbers.
pub fn fixed_mul(a: Fixed, b: Fixed) -> (r: Fixed)
    ensures
        r == sat_mul(a, b),
{
    let x: i128 = a as i128;
    let y: i128 = b as i128;
    assert(-0x4000_0000_0000_0000_0000_0000_0000_0000 <= x * y
        <= 0x4000_0000_0000_0000_0000_0000_0000_0000) by (nonlinear_arith)
        requires
            -0x8000_0000_0000_0000 <= x < 0x8000_0000_0000_0000,
            -0x8000_0000_0000_0000 <= y < 0x8000_0000_0000_0000,
    ;
    narrow((x * y) / (ONE as i128))
}

/// The quotient of two fixed-point numbers.
pub fn fixed_div(a: Fixed, b: Fixed) -> (r: Fixed)
    ensures
        r == sat_div(a, b),
{
    if b == 0 {
        if a > 0 {
            i64::MAX
        } else if a < 0 {
            i64::MIN
        } else {
            0
        }
    } else {
        let scaled: i128 = (a as i128) * 1_000_000;
        if b > 0 {
            narrow(scaled / (b as i128))
        } else {
            narrow((0 - scaled) / (0 - b as i128))
        }
    }
}

/// Where a point at `x` stands after `dt` seconds at speed `v`.
pub fn fixed_travel(x: Fixed, v: Fixed, dt: Fixed) -> (r: Fixed)
    ensures
        r == travel(x, v, dt),
{
    fixed_add(x, fixed_mul(v, dt))
}

/// The smaller of two numbers.
pub fn fixed_min(a: Fixed, b: Fixed) -> (r: Fixed)
    ensures
        r == lesser(a, b),
{
    if a <= b {
        a
    } else {
        b
    }
}

/// Half of `a`.
pub fn fixed_half(a: Fixed) -> (r: Fixed)
    ensures
        r == half(a),
{
    a / 2
}

/// Whether `a` and `b` lie more than `limit` apart.
pub fn farther_than(a: Fixed, b: Fixed, limit: Fixed) -> (r: bool)
    ensures
        r == (gap(a, b) > limit),
{
    let d: i128 = a as i128 - b as i128;
    if d >= 0 {
        d > limit as i128
    } else {
        0 - d > limit as i128
    }
}

/// `v` moved into `[low, high]`.
pub fn fixed_clamp(v: Fixed, low: Fixed, high: Fixed) -> (r: Fixed)
    ensures
        r == confine(v, low, high),
{
    if v < low {
        low
    } else if v > high {
        high
    } else {
        v
    }
}

/// The integer square root, by bisection.
pub fn isqrt(n: u128) -> (r: u64)
    ensures
        is_root(n as int, r as int),
        r == root(n as int),
{
    let mut low: u128 = 0;
    let mut high: u128 = 0x1_0000_0000_0000_0000;
    assert(n < high * high) by (nonlinear_arith)
        requires
            n < 0x1_0000_0000_0000_0000_0000_0000_0000_0000,
            high == 0x1_0000_0000_0000_0000,
    ;
    while high - low > 1
        invariant
            low < high <= 0x1_0000_0000_0000_0000,
            low * low <= n < high * high,
        decreases high - low,
    {
        let mid: u128 = low + (high - low) / 2;
        assert(mid * mid <= 0xffff_ffff_ffff_ffff * 0xffff_ffff_ffff_ffff) by (nonlinear_arith)
            requires
                0 <= mid <= 0xffff_ffff_ffff_ffff,
        ;
        if mid * mid <= n {
            low = mid;
        } else {
            high = mid;
        }
    }
    proof {
        assert(high == low + 1);
        assert(is_root(n as int, low as int));
        let chosen = root(n as int);
        lemma_root_unique(n as int, low as int, chosen);
    }
    low as u64
}

/// The distance of the point `(x, y)` from the origin.
pub fn fixed_norm(x: Fixed, y: Fixed) -> (r: Fixed)
    ensures
        r == norm(x, y),
{
    let a: i128 = x as i128;
    let b: i128 = y as i128;
    assert(0 <= a * a <= 0x4000_0000_0000_0000_0000_0000_0000_0000) by (nonlinear_arith)
        requires
            -0x8000_0000_0000_0000 <= a < 0x8000_0000_0000_0000,
    ;
    assert(0 <= b * b <= 0x4000_0000_0000_0000_0000_0000_0000_0000) by (nonlinear_arith)
        requires
            -0x8000_0000_0000_0000 <= b < 0x8000_0000_0000_0000,
    ;
    let squares: u128 = (a * a) as u128 + (b * b) as u128;
    let r: u64 = isqrt(squares);
    if r > i64::MAX as u64 {
        i64::MAX
    } else {
        r as i64
    }
}

} // verus!
