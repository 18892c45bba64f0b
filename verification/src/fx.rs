//! Signed 48.16 fixed-point arithmetic: the number `x` stands for the real
//! value `x / UNIT`. All audio gains, positions and angles in this crate are
//! carried in this representation.

use vstd::prelude::*;

verus! {

/// One in fixed point: values are scaled by this factor.
pub const UNIT: i64 = 65536;

/// Pi in fixed point (truncated).
pub const PI_FX: i64 = 205887;

/// Two pi in fixed point; tone phases live in `[0, TWO_PI_FX)`.
pub const TWO_PI_FX: i64 = 2 * PI_FX;

/// Pi squared in fixed point (the truncation of `PI_FX * PI_FX / UNIT`).
pub const PI_SQ_FX: i64 = 646811;

/// Truncating division, the semantics of `/` on the machine integers,
/// as a function on unbounded integers (for a positive divisor).
pub open spec fn tdiv(a: int, b: int) -> int {
    if a >= 0 {
        a / b
    } else {
        -((-a) / b)
    }
}

/// `x` clamped to the interval `[lo, hi]`.
pub open spec fn spec_clamp(x: int, lo: int, hi: int) -> int {
    if x < lo {
        lo
    } else if x > hi {
        hi
    } else {
        x
    }
}

/// Clamp `x` to `[lo, hi]`.
pub fn clamp_fx(x: i64, lo: i64, hi: i64) -> (r: i64)
    requires
        lo <= hi,
    ensures
        r == spec_clamp(x as int, lo as int, hi as int),
        lo <= r <= hi,
{
    if x < lo {
        lo
    } else if x > hi {
        hi
    } else {
        x
    }
}

/// The integer square root: the greatest `r` with `r * r <= x`.
pub open spec fn spec_isqrt(x: nat) -> nat {
    choose|r: nat| #[trigger] (r * r) <= x < (r + 1) * (r + 1)
}

pub proof fn lemma_isqrt_exists(x: nat)
    ensures
        exists|r: nat| #[trigger] (r * r) <= x < (r + 1) * (r + 1),
    decreases x,
{
    if x == 0 {
        let z: nat = 0;
        assert(z * z == 0 && (z + 1) * (z + 1) == 1) by (nonlinear_arith)
            requires
                z == 0,
        ;
        assert(z * z <= x < (z + 1) * (z + 1));
    } else {
        lemma_isqrt_exists((x - 1) as nat);
        let r = choose|r: nat| #[trigger] (r * r) <= x - 1 < (r + 1) * (r + 1);
        if x < (r + 1) * (r + 1) {
            assert(r * r <= x < (r + 1) * (r + 1));
        } else {
            assert(x == (r + 1) * (r + 1));
            assert((r + 1) * (r + 1) <= x < (r + 2) * (r + 2)) by (nonlinear_arith)
                requires
                    x == (r + 1) * (r + 1),
            ;
        }
    }
}

/// The square root is characterized by its bracketing square.
pub proof fn lemma_isqrt_unique(x: nat, r: nat)
    requires
        r * r <= x < (r + 1) * (r + 1),
    ensures
        spec_isqrt(x) == r,
{
    lemma_isqrt_exists(x);
    let q = spec_isqrt(x);
    assert(q * q <= x < (q + 1) * (q + 1));
    assert(q == r) by (nonlinear_arith)
        requires
            r * r <= x < (r + 1) * (r + 1),
            q * q <= x < (q + 1) * (q + 1),
    ;
}

/// Integer square root of `x`, by bisection.
pub fn isqrt_u64(x: u64) -> (r: u64)
    ensures
        r * r <= x < (r + 1) * (r + 1),
        r == spec_isqrt(x as nat),
        r < 0x1_0000_0000,
{
    let mut lo: u64 = 0;
    let mut hi: u64 = 0x1_0000_0000;
    proof {
        assert(x < 0x1_0000_0000u64 * 0x1_0000_0000u64) by (nonlinear_arith)
            requires
                x <= u64::MAX,
        ;
    }
    while hi - lo > 1
        invariant
            lo < hi <= 0x1_0000_0000,
            lo * lo <= x,
            x < hi * hi,
        decreases hi - lo,
    {
        let mid: u64 = lo + (hi - lo) / 2;
        proof {
            assert((mid as int) * (mid as int) <= 0x1_0000_0000 * 0x1_0000_0000) by (nonlinear_arith)
                requires
                    0 <= mid <= 0x1_0000_0000,
            ;
        }
        let sq: u128 = (mid as u128) * (mid as u128);
        if sq <= x as u128 {
            lo = mid;
        } else {
            hi = mid;
        }
    }
    proof {
        assert(x < (lo + 1) * (lo + 1)) by (nonlinear_arith)
            requires
                hi == lo + 1,
                x < hi * hi,
        ;
        lemma_isqrt_unique(x as nat, lo as nat);
    }
    lo
}

/// The square root satisfies its bracketing inequalities.
pub proof fn lemma_isqrt_bracket(x: nat)
    ensures
        spec_isqrt(x) * spec_isqrt(x) <= x < (spec_isqrt(x) + 1) * (spec_isqrt(x) + 1),
{
    lemma_isqrt_exists(x);
    let r = choose|r: nat| #[trigger] (r * r) <= x < (r + 1) * (r + 1);
    lemma_isqrt_unique(x, r);
}

/// Square root of a non-negative fixed-point value, in fixed point:
/// `spec_isqrt(x * UNIT)`.
pub fn sqrt_fx(x: i64) -> (r: i64)
    requires
        0 <= x < 0x1_0000_0000_0000,
    ensures
        r == spec_isqrt((x * UNIT) as nat),
        0 <= r < 0x1_0000_0000,
        r * r <= x * UNIT < (r + 1) * (r + 1),
{
    proof {
        assert((x as u64) * (UNIT as u64) < 0x1_0000_0000_0000u64 * 65536u64) by (nonlinear_arith)
            requires
                0 <= x < 0x1_0000_0000_0000,
                UNIT == 65536,
        ;
    }
    let wide: u64 = (x as u64) * (UNIT as u64);
    let r = isqrt_u64(wide);
    r as i64
}

/// The sample curve of the tone generator: a parabolic approximation of the
/// sine on `[0, PI_FX)`, mirrored with opposite sign on `[PI_FX, TWO_PI_FX)`,
/// clamped to `[-UNIT, UNIT]`.
pub open spec fn spec_sine_hump(x: int) -> int {
    spec_clamp(
        4 * (x * (PI_FX as int - x) / (UNIT as int)) * (UNIT as int) / (PI_SQ_FX as int),
        -(UNIT as int),
        UNIT as int,
    )
}

/// See [`spec_sine_hump`] for the parabola on one half period.
pub open spec fn spec_sine(phase: int) -> int {
    if phase < PI_FX as int {
        spec_sine_hump(phase)
    } else {
        -spec_sine_hump(phase - PI_FX as int)
    }
}

/// Scale `a` by the fixed-point factor `b`: `a * b / UNIT`, truncated.
pub fn mul_fx(a: i64, b: i64) -> (r: i64)
    requires
        -0x8000_0000 <= a <= 0x8000_0000,
        -0x8000_0000 <= b <= 0x8000_0000,
    ensures
        r == tdiv(a * b, UNIT as int),
        -0x4000_0000_0000 <= r <= 0x4000_0000_0000,
{
    proof {
        assert(-0x4000_0000_0000_0000 <= a * b <= 0x4000_0000_0000_0000) by (nonlinear_arith)
            requires
                -0x8000_0000 <= a <= 0x8000_0000,
                -0x8000_0000 <= b <= 0x8000_0000,
        ;
        assert(-0x4000_0000_0000 <= tdiv(a * b, UNIT as int) <= 0x4000_0000_0000) by (nonlinear_arith)
            requires
                -0x4000_0000_0000_0000 <= a * b <= 0x4000_0000_0000_0000,
                UNIT == 65536,
        ;
    }
    a * b / UNIT
}

/// Evaluate the tone sample curve at `phase`.
pub fn sine_fx(phase: i64) -> (r: i64)
    requires
        0 <= phase < TWO_PI_FX,
    ensures
        r == spec_sine(phase as int),
        -UNIT <= r <= UNIT,
{
    let (x, neg): (i64, bool) = if phase < PI_FX {
        (phase, false)
    } else {
        (phase - PI_FX, true)
    };
    proof {
        assert(0 <= x * (PI_FX - x) <= PI_FX * PI_FX) by (nonlinear_arith)
            requires
                0 <= x < PI_FX,
        ;
        assert(x * (PI_FX - x) / (UNIT as int) <= PI_FX * PI_FX / (UNIT as int)) by (nonlinear_arith)
            requires
                0 <= x * (PI_FX - x) <= PI_FX * PI_FX,
                UNIT == 65536,
        ;
    }
    let hump: i64 = x * (PI_FX - x) / UNIT;
    let scaled: i64 = 4 * hump * UNIT / PI_SQ_FX;
    let s = clamp_fx(scaled, -UNIT, UNIT);
    if neg {
        -s
    } else {
        s
    }
}

} // verus!
