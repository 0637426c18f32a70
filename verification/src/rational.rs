use vstd::prelude::*;

verus! {

/// An exact rational number, held as a signed numerator over a positive
/// denominator.  Values are not kept reduced: `5/1` and `10/2` name the same
/// rational, and [`rat_eq`] compares by cross-multiplication.
#[derive(Clone, Copy, Debug)]
pub struct Rational {
    pub num: i64,
    pub den: i64,
}

/// Well-formedness: the denominator is positive, so the value names a
/// rational number and comparisons keep their direction.
pub open spec fn rat_wf(x: Rational) -> bool {
    x.den >= 1
}

/// `x` and `y` name the same rational: `a/b == c/d` exactly when `a*d == c*b`.
pub open spec fn rat_eq(x: Rational, y: Rational) -> bool {
    (x.num as int) * (y.den as int) == (y.num as int) * (x.den as int)
}

/// `x <= y` as rationals (meaningful for well-formed values):
/// `a/b <= c/d` exactly when `a*d <= c*b`, both denominators being positive.
pub open spec fn rat_le(x: Rational, y: Rational) -> bool {
    (x.num as int) * (y.den as int) <= (y.num as int) * (x.den as int)
}

/// The product of two values in `i64` range stays well inside `i128` range.
pub(crate) proof fn lemma_i64_mul_fits_i128(a: int, b: int)
    by (nonlinear_arith)
    requires
        i64::MIN as int <= a <= i64::MAX as int,
        i64::MIN as int <= b <= i64::MAX as int,
    ensures
        -0x4000_0000_0000_0000_0000_0000_0000_0000 <= a * b,
        a * b <= 0x4000_0000_0000_0000_0000_0000_0000_0000,
{
}

/// The product of a numerator in `i64` range with a positive denominator in
/// `i64` range: tight enough that the difference of two such products still
/// fits in `i128`.
pub(crate) proof fn lemma_num_den_mul_bounds(x: int, d: int)
    by (nonlinear_arith)
    requires
        i64::MIN as int <= x <= i64::MAX as int,
        1 <= d <= i64::MAX as int,
    ensures
        (i64::MIN as int) * (i64::MAX as int) <= x * d,
        x * d <= (i64::MAX as int) * (i64::MAX as int),
{
}

impl Rational {
    /// Builds the rational `num / den`.
    pub fn new(num: i64, den: i64) -> (r: Rational)
        requires
            den >= 1,
        ensures
            r.num == num,
            r.den == den,
            rat_wf(r),
    {
        Rational { num, den }
    }

    /// The integer `v` as a rational.
    pub fn from_int(v: i64) -> (r: Rational)
        ensures
            r.num == v,
            r.den == 1,
            rat_wf(r),
    {
        Rational { num: v, den: 1 }
    }

    /// The numerator of the held representation.
    pub fn numer(&self) -> (r: i64)
        ensures
            r == self.num,
    {
        self.num
    }

    /// The denominator of the held representation.
    pub fn denom(&self) -> (r: i64)
        ensures
            r == self.den,
    {
        self.den
    }

    /// Whether `self` and `other` name the same rational.
    pub fn same_value(&self, other: &Rational) -> (r: bool)
        ensures
            r == rat_eq(*self, *other),
    {
        proof {
            lemma_i64_mul_fits_i128(self.num as int, other.den as int);
            lemma_i64_mul_fits_i128(other.num as int, self.den as int);
        }
        (self.num as i128) * (other.den as i128) == (other.num as i128) * (self.den as i128)
    }

    /// Whether `self <= other` as rationals.
    pub fn le_value(&self, other: &Rational) -> (r: bool)
        requires
            rat_wf(*self),
            rat_wf(*other),
        ensures
            r == rat_le(*self, *other),
    {
        proof {
            lemma_i64_mul_fits_i128(self.num as int, other.den as int);
            lemma_i64_mul_fits_i128(other.num as int, self.den as int);
        }
        (self.num as i128) * (other.den as i128) <= (other.num as i128) * (self.den as i128)
    }
}

} // verus!
