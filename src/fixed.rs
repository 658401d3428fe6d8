//! A saturating signed fixed-point scalar with 32 fractional bits.
//!
//! Every operation is total: a result outside the range of `i64` is clamped
//! to the nearest bound, and products and quotients round toward zero.
use vstd::prelude::*;

verus! {

/// The raw value that stands for one.
pub const ONE_RAW: i64 = 4294967296;

/// Clamps an integer into the range of `i64`.
pub open spec fn sat(x: int) -> int {
    if x > i64::MAX {
        i64::MAX as int
    } else if x < i64::MIN {
        i64::MIN as int
    } else {
        x
    }
}

/// Division that rounds toward zero.
pub open spec fn tdiv(n: int, d: int) -> int {
    let q = (if n >= 0 { n } else { -n }) / (if d >= 0 { d } else { -d });
    if (n >= 0) == (d >= 0) {
        q
    } else {
        -q
    }
}

/// A real number `raw / 2^32`.
#[derive(Clone, Copy, Debug, PartialEq, Eq, Structural)]
pub struct Fixed {
    pub raw: i64,
}

pub open spec fn fx(raw: int) -> Fixed {
    Fixed { raw: sat(raw) as i64 }
}

pub open spec fn fx_add(a: Fixed, b: Fixed) -> Fixed {
    fx(a.raw + b.raw)
}

pub open spec fn fx_sub(a: Fixed, b: Fixed) -> Fixed {
    fx(a.raw - b.raw)
}

pub open spec fn fx_neg(a: Fixed) -> Fixed {
    fx(-a.raw)
}

pub open spec fn fx_abs(a: Fixed) -> Fixed {
    if a.raw >= 0 {
        a
    } else {
        fx_neg(a)
    }
}

pub open spec fn fx_mul(a: Fixed, b: Fixed) -> Fixed {
    fx(tdiv(a.raw * b.raw, ONE_RAW as int))
}

pub open spec fn fx_div(a: Fixed, b: Fixed) -> Fixed {
    fx(tdiv(a.raw * ONE_RAW, b.raw as int))
}

pub open spec fn fx_int(n: int) -> Fixed {
    fx(n * ONE_RAW)
}

pub open spec fn fx_zero() -> Fixed {
    Fixed { raw: 0 }
}

pub open spec fn fx_one() -> Fixed {
    Fixed { raw: ONE_RAW }
}

/// Clamps a wide value into `i64`.
fn saturate(x: i128) -> (r: i64)
    ensures
        r == sat(x as int),
{
    if x > i64::MAX as i128 {
        i64::MAX
    } else if x < i64::MIN as i128 {
        i64::MIN
    } else {
        x as i64
    }
}

/// Rounds toward zero; works on magnitudes.
fn trunc_div(n: i128, d: i128) -> (r: i128)
    requires
        d != 0,
        n > i128::MIN,
        d > i128::MIN,
    ensures
        r == tdiv(n as int, d as int),
{
    let un: u128 = if n >= 0 { n as u128 } else { (-n) as u128 };
    let ud: u128 = if d >= 0 { d as u128 } else { (-d) as u128 };
    let q: u128 = un / ud;
    assert(q <= un) by (nonlinear_arith)
        requires
            q == un / ud,
            ud >= 1,
    ;
    if (n >= 0) == (d >= 0) {
        q as i128
    } else {
        -(q as i128)
    }
}

impl Fixed {
    pub fn zero() -> (r: Fixed)
        ensures
            r == fx_zero(),
    {
        Fixed { raw: 0 }
    }

    pub fn one() -> (r: Fixed)
        ensures
            r == fx_one(),
    {
        Fixed { raw: ONE_RAW }
    }

    /// The whole number `n`.
    pub fn from_int(n: i32) -> (r: Fixed)
        ensures
            r == fx_int(n as int),
    {
        Fixed { raw: (n as i64) * ONE_RAW }
    }

    /// The fraction `num / den`, rounded toward zero.
    pub fn ratio(num: i32, den: i32) -> (r: Fixed)
        requires
            den != 0,
        ensures
            r == fx_div(fx_int(num as int), fx_int(den as int)),
    {
        Fixed::from_int(num).quotient(Fixed::from_int(den))
    }

    pub fn plus(self, o: Fixed) -> (r: Fixed)
        ensures
            r == fx_add(self, o),
    {
        Fixed { raw: saturate(self.raw as i128 + o.raw as i128) }
    }

    pub fn minus(self, o: Fixed) -> (r: Fixed)
        ensures
            r == fx_sub(self, o),
    {
        Fixed { raw: saturate(self.raw as i128 - o.raw as i128) }
    }

    pub fn negated(self) -> (r: Fixed)
        ensures
            r == fx_neg(self),
    {
        Fixed { raw: saturate(-(self.raw as i128)) }
    }

    pub fn abs(self) -> (r: Fixed)
        ensures
            r == fx_abs(self),
            r.raw >= 0,
    {
        if self.raw >= 0 {
            self
        } else {
            self.negated()
        }
    }

    pub fn times(self, o: Fixed) -> (r: Fixed)
        ensures
            r == fx_mul(self, o),
    {
        let a: i128 = self.raw as i128;
        let b: i128 = o.raw as i128;
        assert(-0x4000_0000_0000_0000_0000_0000_0000_0000 <= a * b
            <= 0x4000_0000_0000_0000_0000_0000_0000_0000) by (nonlinear_arith)
            requires
                -0x8000_0000_0000_0000 <= a < 0x8000_0000_0000_0000,
                -0x8000_0000_0000_0000 <= b < 0x8000_0000_0000_0000,
        ;
        Fixed { raw: saturate(trunc_div(a * b, ONE_RAW as i128)) }
    }

    /// `self / o`; `o` must not be zero.
    pub fn quotient(self, o: Fixed) -> (r: Fixed)
        requires
            o.raw != 0,
        ensures
            r == fx_div(self, o),
    {
        let a: i128 = self.raw as i128;
        let one: i128 = ONE_RAW as i128;
        assert(-0x8000_0000_0000_0000_0000_0000 <= a * one <= 0x8000_0000_0000_0000_0000_0000)
            by (nonlinear_arith)
            requires
                -0x8000_0000_0000_0000 <= a < 0x8000_0000_0000_0000,
                one == 0x1_0000_0000,
        ;
        Fixed { raw: saturate(trunc_div(a * one, o.raw as i128)) }
    }
}

pub proof fn lemma_mul_nonneg(a: Fixed, b: Fixed)
    requires
        a.raw >= 0,
        b.raw >= 0,
    ensures
        fx_mul(a, b).raw >= 0,
{
    assert(a.raw * b.raw >= 0) by (nonlinear_arith)
        requires
            a.raw >= 0,
            b.raw >= 0,
    ;
}

pub proof fn lemma_square_nonneg(a: Fixed)
    ensures
        fx_mul(a, a).raw >= 0,
{
    assert(a.raw * a.raw >= 0) by (nonlinear_arith);
}

pub proof fn lemma_div_nonneg(a: Fixed, b: Fixed)
    requires
        a.raw >= 0,
        b.raw > 0,
    ensures
        fx_div(a, b).raw >= 0,
{
    assert(a.raw * ONE_RAW >= 0) by (nonlinear_arith)
        requires
            a.raw >= 0,
    ;
    assert((a.raw * ONE_RAW) / (b.raw as int) >= 0) by (nonlinear_arith)
        requires
            a.raw * ONE_RAW >= 0,
            b.raw > 0,
    ;
}

} // verus!
