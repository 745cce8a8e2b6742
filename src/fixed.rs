use vstd::prelude::*;
use vstd::arithmetic::div_mod::lemma_div_by_multiple;

verus! {

/// Raw units in one whole unit: a scalar `v` stands for the real number `v / SCALE`.
pub const SCALE: i64 = 1_000_000;

/// Brings a mathematical integer back into the range of `i64`, saturating at its ends.
pub open spec fn clamp64(v: int) -> int {
    if v > i64::MAX {
        i64::MAX as int
    } else if v < i64::MIN {
        i64::MIN as int
    } else {
        v
    }
}

/// Integer division rounding toward zero; zero when the divisor is zero.
pub open spec fn div_trunc(n: int, d: int) -> int {
    if d == 0 {
        0
    } else if n >= 0 && d > 0 {
        n / d
    } else if n < 0 && d > 0 {
        -((-n) / d)
    } else if n >= 0 {
        -(n / (-d))
    } else {
        (-n) / (-d)
    }
}

pub open spec fn spec_add(a: int, b: int) -> int {
    clamp64(a + b)
}

pub open spec fn spec_sub(a: int, b: int) -> int {
    clamp64(a - b)
}

/// Product of two scalars, rounded toward zero.
pub open spec fn spec_mul(a: int, b: int) -> int {
    clamp64(div_trunc(a * b, SCALE as int))
}

/// Quotient of two scalars, rounded toward zero; zero for a zero divisor.
pub open spec fn spec_div(a: int, b: int) -> int {
    if b == 0 {
        0
    } else {
        clamp64(div_trunc(a * SCALE, b))
    }
}

pub open spec fn is_isqrt(r: int, v: int) -> bool {
    0 <= r && r * r <= v && v < (r + 1) * (r + 1)
}

/// The integer square root: the largest `r` with `r * r <= v`.
pub open spec fn isqrt(v: int) -> int {
    choose|r: int| is_isqrt(r, v)
}

/// Square root of a scalar, rounded down; zero for a value that is not positive.
pub open spec fn spec_sqrt(a: int) -> int {
    if a <= 0 {
        0
    } else {
        isqrt(a * SCALE)
    }
}

pub proof fn lemma_isqrt_unique(r1: int, r2: int, v: int)
    requires
        is_isqrt(r1, v),
        is_isqrt(r2, v),
    ensures
        r1 == r2,
{
    if r1 < r2 {
        assert((r1 + 1) * (r1 + 1) <= r2 * r2) by (nonlinear_arith)
            requires
                0 <= r1,
                r1 + 1 <= r2,
        ;
    } else if r2 < r1 {
        assert((r2 + 1) * (r2 + 1) <= r1 * r1) by (nonlinear_arith)
            requires
                0 <= r2,
                r2 + 1 <= r1,
        ;
    }
}

/// One whole unit is neutral for the product and zero is neutral for the sum.
pub proof fn lemma_unit_and_zero(a: int)
    requires
        i64::MIN <= a <= i64::MAX,
    ensures
        spec_mul(a, SCALE as int) == a,
        spec_mul(SCALE as int, a) == a,
        spec_mul(a, 0) == 0,
        spec_mul(0, a) == 0,
        spec_add(a, 0) == a,
        spec_add(0, a) == a,
{
    assert(SCALE as int * a == a * SCALE as int) by (nonlinear_arith);
    if a >= 0 {
        lemma_div_by_multiple(a, SCALE as int);
    } else {
        lemma_div_by_multiple(-a, SCALE as int);
        assert(a * SCALE as int == -((-a) * SCALE as int)) by (nonlinear_arith);
    }
}

fn clamp_i128(v: i128) -> (r: i64)
    ensures
        r == clamp64(v as int),
{
    if v > i64::MAX as i128 {
        i64::MAX
    } else if v < i64::MIN as i128 {
        i64::MIN
    } else {
        v as i64
    }
}

fn trunc_div(n: i128, d: i128) -> (q: i128)
    requires
        d != 0,
        n > i128::MIN,
        d > i128::MIN,
    ensures
        q == div_trunc(n as int, d as int),
{
    let un: u128 = if n >= 0 {
        n as u128
    } else {
        (-n) as u128
    };
    let ud: u128 = if d >= 0 {
        d as u128
    } else {
        (-d) as u128
    };
    let uq: u128 = un / ud;
    assert(uq <= un) by (nonlinear_arith)
        requires
            uq == un / ud,
            ud >= 1,
    ;
    let q: i128 = uq as i128;
    if (n >= 0) == (d > 0) {
        q
    } else {
        -q
    }
}

/// Sum of two scalars, saturating at the ends of `i64`.
pub fn fx_add(a: i64, b: i64) -> (r: i64)
    ensures
        r == spec_add(a as int, b as int),
{
    clamp_i128(a as i128 + b as i128)
}

/// Difference of two scalars, saturating at the ends of `i64`.
pub fn fx_sub(a: i64, b: i64) -> (r: i64)
    ensures
        r == spec_sub(a as int, b as int),
{
    clamp_i128(a as i128 - b as i128)
}

/// Product of two scalars, rounded toward zero and saturating.
pub fn fx_mul(a: i64, b: i64) -> (r: i64)
    ensures
        r == spec_mul(a as int, b as int),
{
    let wa: i128 = a as i128;
    let wb: i128 = b as i128;
    assert(-0x4000_0000_0000_0000_0000_0000_0000_0000 <= wa * wb <= 0x4000_0000_0000_0000_0000_0000_0000_0000)
        by (nonlinear_arith)
        requires
            -0x8000_0000_0000_0000 <= wa <= 0x8000_0000_0000_0000,
            -0x8000_0000_0000_0000 <= wb <= 0x8000_0000_0000_0000,
    ;
    let p: i128 = wa * wb;
    clamp_i128(trunc_div(p, SCALE as i128))
}

/// Quotient of two scalars, rounded toward zero and saturating; zero for a zero divisor.
pub fn fx_div(a: i64, b: i64) -> (r: i64)
    ensures
        r == spec_div(a as int, b as int),
{
    if b == 0 {
        return 0;
    }
    let wa: i128 = a as i128;
    assert(-0x1_0000_0000_0000_0000_0000_0000 <= wa * (SCALE as i128) <= 0x1_0000_0000_0000_0000_0000_0000)
        by (nonlinear_arith)
        requires
            -0x8000_0000_0000_0000 <= wa <= 0x8000_0000_0000_0000,
    ;
    let p: i128 = wa * (SCALE as i128);
    clamp_i128(trunc_div(p, b as i128))
}

fn isqrt_u128(v: u128) -> (r: u128)
    requires
        v < 0x10_0000_0000_0000_0000_0000,
    ensures
        is_isqrt(r as int, v as int),
{
    let mut lo: u128 = 0;
    let mut hi: u128 = 0x400_0000_0000;
    assert(v < hi * hi) by (nonlinear_arith)
        requires
            v < 0x10_0000_0000_0000_0000_0000,
            hi == 0x400_0000_0000,
    ;
    while lo + 1 < hi
        invariant
            lo < hi <= 0x400_0000_0000,
            lo * lo <= v,
            v < hi * hi,
        decreases hi - lo,
    {
        let mid: u128 = lo + (hi - lo) / 2;
        assert(mid * mid <= 0x10_0000_0000_0000_0000_0000) by (nonlinear_arith)
            requires
                mid <= 0x400_0000_0000,
        ;
        if mid * mid <= v {
            lo = mid;
        } else {
            hi = mid;
        }
    }
    lo
}

/// Square root of a scalar, rounded down; zero for a value that is not positive.
pub fn fx_sqrt(a: i64) -> (r: i64)
    ensures
        r == spec_sqrt(a as int),
{
    if a <= 0 {
        return 0;
    }
    let ua: u128 = a as u128;
    assert(ua * 1_000_000 < 0x10_0000_0000_0000_0000_0000) by (nonlinear_arith)
        requires
            ua < 0x8000_0000_0000_0000,
    ;
    let v: u128 = ua * (SCALE as u128);
    let s: u128 = isqrt_u128(v);
    proof {
        let c = isqrt(v as int);
        assert(is_isqrt(c, v as int));
        lemma_isqrt_unique(c, s as int, v as int);
    }
    assert(s < 0x8000_0000_0000_0000) by (nonlinear_arith)
        requires
            s * s <= v,
            v < 0x10_0000_0000_0000_0000_0000,
    ;
    s as i64
}

} // verus!
