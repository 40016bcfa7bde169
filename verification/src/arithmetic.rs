//! Fixed-point and per-million arithmetic, computed by `sp_arithmetic`.
use vstd::prelude::*;

verus! {

/// Parts per million of a `Permill` built from a percentage.
///
/// Calls `sp_arithmetic::Permill::from_percent` and takes its parts back out with
/// `deconstruct`; by its source, percentages above 100 are clamped to 100 and one percent is
/// 10_000 parts.
#[verifier::external_body]
fn permill_parts_from_percent(x: u32) -> (parts: u32)
    ensures
        parts == (if x <= 100 { x } else { 100 }) * 10_000,
{
    sp_arithmetic::Permill::from_percent(x).deconstruct()
}

/// `sp_arithmetic::Permill::mul_floor` of a `u128`.
///
/// By its source it computes `(x / 1_000_000) * p + (x % 1_000_000) * p / 1_000_000`, which is
/// `x * p / 1_000_000` rounded down.
#[verifier::external_body]
fn permill_mul_floor(parts: u32, amount: u128) -> (r: u128)
    requires
        parts <= 1_000_000,
    ensures
        r == amount * parts / 1_000_000,
{
    sp_arithmetic::Permill::from_parts(parts).mul_floor(amount)
}

/// `sp_arithmetic::Permill::mul_ceil` of a `u128`: `x * p / 1_000_000` rounded up.
#[verifier::external_body]
fn permill_mul_ceil(parts: u32, amount: u128) -> (r: u128)
    requires
        parts <= 1_000_000,
    ensures
        r == (amount * parts + 999_999) / 1_000_000,
{
    sp_arithmetic::Permill::from_parts(parts).mul_ceil(amount)
}

/// `sp_arithmetic::helpers_128bit::multiply_by_rational_with_rounding` rounding down.
///
/// By its source it computes the exact 256-bit product `a * b`, divides it by `c` and returns
/// `None` when `c` is zero or the quotient does not fit in 128 bits.
#[verifier::external_body]
pub(crate) fn multiply_by_rational_floor(a: u128, b: u128, c: u128) -> (r: Option<u128>)
    ensures
        c == 0 ==> r is None,
        c != 0 ==> (r is Some <==> (a * b) / (c as int) <= u128::MAX),
        r matches Some(v) ==> v == (a * b) / (c as int),
{
    sp_arithmetic::helpers_128bit::multiply_by_rational_with_rounding(
        a,
        b,
        c,
        sp_arithmetic::per_things::Rounding::Down,
    )
}

/// Inner value of `sp_arithmetic::FixedI64::from_rational(x, 100)`.
///
/// `FixedI64` has 10^9 as its unit, so by its source `x / 100` is held as `x * 10^7`, which
/// is exact; the call panics only when that overflows an `i64`, which `requires` rules out.
#[verifier::external_body]
fn fixed_i64_percent_inner(x: u128) -> (inner: i64)
    requires
        x * 10_000_000 <= i64::MAX,
    ensures
        inner == x * 10_000_000,
{
    sp_arithmetic::FixedI64::from_rational(x, 100).into_inner()
}

/// A fraction in parts per million, between zero and one.
#[derive(Clone, Copy, Debug)]
pub struct Permill {
    parts: u32,
}

impl Permill {
    #[verifier::type_invariant]
    spec fn at_most_one(self) -> bool {
        self.parts <= 1_000_000
    }

    /// Parts per million held.
    pub closed spec fn parts(self) -> u32 {
        self.parts
    }

    /// The fraction `parts / 1_000_000`, clamped to one.
    pub fn from_parts(parts: u32) -> (p: Permill)
        ensures
            p.parts() == (if parts <= 1_000_000 { parts } else { 1_000_000 }),
    {
        if parts <= 1_000_000 {
            Permill { parts }
        } else {
            Permill { parts: 1_000_000 }
        }
    }

    /// The fraction `x / 100`, clamped to one.
    pub fn from_percent(x: u32) -> (p: Permill)
        ensures
            p.parts() == (if x <= 100 { x } else { 100 }) * 10_000,
    {
        let parts = permill_parts_from_percent(x);
        Permill { parts }
    }

    /// Zero.
    pub fn zero() -> (p: Permill)
        ensures
            p.parts() == 0,
    {
        Permill { parts: 0 }
    }

    /// Parts per million held.
    pub fn deconstruct(&self) -> (parts: u32)
        ensures
            parts == self.parts(),
            parts <= 1_000_000,
    {
        proof {
            use_type_invariant(self);
        }
        self.parts
    }

    /// `amount` times this fraction, rounded down.
    pub fn mul_floor(&self, amount: u128) -> (r: u128)
        ensures
            r == amount * self.parts() / 1_000_000,
            r <= amount,
    {
        proof {
            use_type_invariant(self);
        }
        let r = permill_mul_floor(self.parts, amount);
        proof {
            lemma_mul_floor_bound(amount as int, self.parts as int);
        }
        r
    }

    /// `amount` times this fraction, rounded up.
    pub fn mul_ceil(&self, amount: u128) -> (r: u128)
        ensures
            r == (amount * self.parts() + 999_999) / 1_000_000,
            r <= amount,
    {
        proof {
            use_type_invariant(self);
        }
        let r = permill_mul_ceil(self.parts, amount);
        proof {
            lemma_mul_ceil_bound(amount as int, self.parts as int);
        }
        r
    }
}

proof fn lemma_mul_floor_bound(a: int, p: int)
    requires
        0 <= a,
        0 <= p <= 1_000_000,
    ensures
        a * p / 1_000_000 <= a,
{
    assert(a * p <= a * 1_000_000) by (nonlinear_arith)
        requires
            0 <= a,
            p <= 1_000_000,
    ;
    assert(a * p / 1_000_000 <= a * 1_000_000 / 1_000_000) by (nonlinear_arith)
        requires
            a * p <= a * 1_000_000,
            0 <= a * p,
    ;
}

proof fn lemma_mul_ceil_bound(a: int, p: int)
    requires
        0 <= a,
        0 <= p <= 1_000_000,
    ensures
        (a * p + 999_999) / 1_000_000 <= a,
{
    assert(a * p <= a * 1_000_000) by (nonlinear_arith)
        requires
            0 <= a,
            p <= 1_000_000,
    ;
    assert((a * p + 999_999) / 1_000_000 <= (a * 1_000_000 + 999_999) / 1_000_000) by (nonlinear_arith)
        requires
            a * p <= a * 1_000_000,
            0 <= a * p,
    ;
}

/// A signed fixed-point number with 10^9 as its unit.
#[derive(Clone, Copy, Debug)]
pub struct FixedI64 {
    /// The number times 10^9.
    pub inner: i64,
}

/// `x` percent as a `FixedI64`.
pub fn percent(x: i32) -> (f: FixedI64)
    requires
        0 <= x,
    ensures
        f.inner == x * 10_000_000,
{
    let inner = fixed_i64_percent_inner(x as u128);
    FixedI64 { inner }
}

} // verus!
