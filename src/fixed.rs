use vstd::prelude::*;

verus! {

/// One unit in the fixed-point representation: values are stored in
/// millionths (micro-units, micro-radians, microseconds).
pub const UNIT: i64 = 1_000_000;

/// The largest magnitude a product is saturated to. It is symmetric, so that
/// negating a saturated product cannot overflow.
pub const SAT_MAX: i64 = 0x7fff_ffff_ffff_ffff;

/// `x` saturated to the range of `i64`.
pub open spec fn clamp64(x: int) -> int {
    if x > i64::MAX {
        i64::MAX as int
    } else if x < i64::MIN {
        i64::MIN as int
    } else {
        x
    }
}

/// `x` saturated to `[-SAT_MAX, SAT_MAX]`.
pub open spec fn clamp_sym(x: int) -> int {
    if x > SAT_MAX {
        SAT_MAX as int
    } else if x < -SAT_MAX {
        -SAT_MAX
    } else {
        x
    }
}

/// Integer division rounding toward zero.
pub open spec fn div_trunc(n: int, d: int) -> int
    recommends
        d > 0,
{
    if n >= 0 {
        n / d
    } else {
        -((-n) / d)
    }
}

/// The fixed-point product of `a` and `b`, rounded toward zero and saturated.
pub open spec fn fx_mul_spec(a: int, b: int) -> int {
    clamp_sym(div_trunc(a * b, UNIT as int))
}

/// Saturating addition.
pub fn sat_add(a: i64, b: i64) -> (r: i64)
    ensures
        r == clamp64(a + b),
{
    let s: i128 = a as i128 + b as i128;
    if s > i64::MAX as i128 {
        i64::MAX
    } else if s < i64::MIN as i128 {
        i64::MIN
    } else {
        s as i64
    }
}

/// Saturating subtraction.
pub fn sat_sub(a: i64, b: i64) -> (r: i64)
    ensures
        r == clamp64(a - b),
{
    let s: i128 = a as i128 - b as i128;
    if s > i64::MAX as i128 {
        i64::MAX
    } else if s < i64::MIN as i128 {
        i64::MIN
    } else {
        s as i64
    }
}

/// Fixed-point multiplication: `a * b / UNIT`, rounded toward zero and
/// saturated to `[-SAT_MAX, SAT_MAX]`.
pub fn fx_mul(a: i64, b: i64) -> (r: i64)
    ensures
        r == fx_mul_spec(a as int, b as int),
        -SAT_MAX <= r <= SAT_MAX,
{
    let ai: i128 = a as i128;
    let bi: i128 = b as i128;
    assert(-0x8000_0000_0000_0000 <= ai <= 0x7fff_ffff_ffff_ffff);
    assert(-0x8000_0000_0000_0000 <= bi <= 0x7fff_ffff_ffff_ffff);
    assert(-0x4000_0000_0000_0000_0000_0000_0000_0000 <= ai * bi
        <= 0x4000_0000_0000_0000_0000_0000_0000_0000) by (nonlinear_arith)
        requires
            -0x8000_0000_0000_0000 <= ai <= 0x7fff_ffff_ffff_ffff,
            -0x8000_0000_0000_0000 <= bi <= 0x7fff_ffff_ffff_ffff,
    ;
    let p: i128 = ai * bi;
    let q: i128 = if p >= 0 {
        p / 1_000_000
    } else {
        let n: i128 = -p;
        -(n / 1_000_000)
    };
    if q > SAT_MAX as i128 {
        SAT_MAX
    } else if q < -(SAT_MAX as i128) {
        -SAT_MAX
    } else {
        q as i64
    }
}

} // verus!
