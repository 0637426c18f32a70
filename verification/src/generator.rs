use crate::rational::Rational;
use crate::rational::rat_eq;
use crate::rational::rat_le;
use crate::rational::rat_wf;
use vstd::prelude::*;

verus! {

/// The one way the generator fails: the requested number of samples is too
/// small for the evenly-spaced formula.  Fewer than two samples leave the
/// step `(b - a) / (n - 1)` undefined, so such counts are rejected rather
/// than given a made-up meaning.
#[derive(Clone, Copy, Debug, PartialEq, Eq)]
pub enum LinspaceError {
    InvalidArgument,
}

/// The numerator of the step `b - a` over the common denominator
/// `a.den * b.den`.
pub open spec fn step_num(a: Rational, b: Rational) -> int {
    (b.num as int) * (a.den as int) - (a.num as int) * (b.den as int)
}

/// The denominator shared by every sample: `a.den * b.den * (n - 1)`.
pub open spec fn sample_den(a: Rational, b: Rational, n: int) -> int {
    (a.den as int) * (b.den as int) * (n - 1)
}

/// The numerator of the `i`-th sample over [`sample_den`]: as a rational,
/// the sample is `a + i * (b - a) / (n - 1)`.
pub open spec fn sample_num(a: Rational, b: Rational, n: int, i: int) -> int {
    (a.num as int) * (b.den as int) * (n - 1) + i * step_num(a, b)
}

/// The machine bound that the `i64` representation forces on the inputs:
/// the shared denominator and all `n` sample numerators fit in `i64`.
pub open spec fn fits(a: Rational, b: Rational, n: int) -> bool {
    &&& sample_den(a, b, n) <= i64::MAX as int
    &&& forall|i: int|
        0 <= i < n ==> i64::MIN as int <= #[trigger] sample_num(a, b, n, i) <= i64::MAX as int
}

/// `v` is the evenly spaced sequence for `(a, b, n)`: `n` samples, the
/// `i`-th holding exactly `sample_num / sample_den`.
pub open spec fn is_linspace(a: Rational, b: Rational, n: int, v: Seq<Rational>) -> bool {
    &&& v.len() == n
    &&& forall|i: int| #![trigger v[i]]
        0 <= i < n ==> v[i].num == sample_num(a, b, n, i) && v[i].den == sample_den(a, b, n)
}

/// Produces the `n` evenly spaced rational samples that partition the closed
/// interval `[a, b]` into `n - 1` equal sub-intervals: the `i`-th sample is
/// exactly `a + i * (b - a) / (n - 1)`.  Any count below 2 — negative, zero,
/// or one — is rejected with [`LinspaceError::InvalidArgument`], since the
/// formula would otherwise divide by zero; no degenerate sequence is invented
/// for those counts.
pub fn linspace(a: Rational, b: Rational, n: i64) -> (r: Result<Vec<Rational>, LinspaceError>)
    requires
        rat_wf(a),
        rat_wf(b),
        n >= 2 ==> fits(a, b, n as int),
    ensures
        n >= 2 ==> (r matches Ok(v) && is_linspace(a, b, n as int, v@)),
        n >= 2 ==> (r matches Ok(v) && forall|i: int| 0 <= i < v@.len() ==> rat_wf(#[trigger] v@[i])),
        n < 2 ==> r == Result::<Vec<Rational>, LinspaceError>::Err(LinspaceError::InvalidArgument),
{
    if n < 2 {
        return Err(LinspaceError::InvalidArgument);
    }
    let np = a.num as i128;
    let dp = a.den as i128;
    let nq = b.num as i128;
    let dq = b.den as i128;
    let n1 = (n - 1) as i128;
    proof {
        assert(1 <= dp * dq * n1) by (nonlinear_arith)
            requires
                dp >= 1,
                dq >= 1,
                n1 >= 1,
        ;
        assert(sample_den(a, b, n as int) == dp * dq * n1);
        assert(i64::MIN as int <= sample_num(a, b, n as int, 0) <= i64::MAX as int);
        assert(sample_num(a, b, n as int, 0) == np * dq * n1);
        crate::rational::lemma_i64_mul_fits_i128(np as int, dq as int);
        crate::rational::lemma_i64_mul_fits_i128(dp as int, dq as int);
        crate::rational::lemma_num_den_mul_bounds(np as int, dq as int);
        crate::rational::lemma_num_den_mul_bounds(nq as int, dp as int);
    }
    let den_wide: i128 = dp * dq * n1;
    let base: i128 = np * dq * n1;
    let step: i128 = nq * dp - np * dq;
    proof {
        assert(step == step_num(a, b));
    }
    let den: i64 = den_wide as i64;
    let mut v: Vec<Rational> = Vec::new();
    let mut i: i64 = 0;
    #[verifier::loop_isolation(false)]
    while i < n
        invariant
            0 <= i <= n,
            v@.len() == i,
            forall|j: int| #![trigger v@[j]]
                0 <= j < i ==> v@[j].num == sample_num(a, b, n as int, j) && v@[j].den
                    == sample_den(a, b, n as int),
        decreases n - i,
    {
        proof {
            assert(i64::MIN as int <= sample_num(a, b, n as int, i as int) <= i64::MAX as int);
            assert(sample_num(a, b, n as int, i as int) == base + (i as int) * step);
        }
        let num_wide: i128 = base + (i as i128) * step;
        v.push(Rational { num: num_wide as i64, den });
        i = i + 1;
    }
    Ok(v)
}

/// Decides [`linspace`]'s precondition at run time: true exactly when
/// `n >= 2` and every value of the sample formula fits the `i64`
/// representation, so a caller holding arbitrary inputs can test them
/// before asking for the sequence.
pub fn fits_check(a: &Rational, b: &Rational, n: i64) -> (r: bool)
    requires
        rat_wf(*a),
        rat_wf(*b),
    ensures
        r == (n >= 2 && fits(*a, *b, n as int)),
{
    if n < 2 {
        return false;
    }
    let np = a.num as i128;
    let dp = a.den as i128;
    let nq = b.num as i128;
    let dq = b.den as i128;
    let n1 = (n - 1) as i128;
    proof {
        crate::rational::lemma_i64_mul_fits_i128(np as int, dq as int);
        crate::rational::lemma_i64_mul_fits_i128(dp as int, dq as int);
        crate::rational::lemma_num_den_mul_bounds(np as int, dq as int);
        crate::rational::lemma_num_den_mul_bounds(nq as int, dp as int);
        assert(dp * dq >= 1) by (nonlinear_arith)
            requires
                dp >= 1,
                dq >= 1,
        ;
    }
    let dd: i128 = dp * dq;
    let den: i128 = match dd.checked_mul(n1) {
        Some(d) => d,
        None => {
            proof {
                assert(dd * n1 >= 1) by (nonlinear_arith)
                    requires
                        dd >= 1,
                        n1 >= 1,
                ;
                assert(sample_den(*a, *b, n as int) == dd * n1);
            }
            return false;
        },
    };
    if den > i64::MAX as i128 {
        proof {
            assert(sample_den(*a, *b, n as int) == dd * n1);
        }
        return false;
    }
    proof {
        assert(sample_den(*a, *b, n as int) <= i64::MAX as int);
    }
    let nb: i128 = np * dq;
    let base: i128 = match nb.checked_mul(n1) {
        Some(v) => v,
        None => {
            proof {
                assert(sample_num(*a, *b, n as int, 0) == nb * n1);
            }
            return false;
        },
    };
    proof {
        assert(sample_num(*a, *b, n as int, 0) == base);
    }
    if base > i64::MAX as i128 || base < i64::MIN as i128 {
        return false;
    }
    let step: i128 = nq * dp - np * dq;
    proof {
        assert(step == step_num(*a, *b));
    }
    let mut i: i64 = 0;
    #[verifier::loop_isolation(false)]
    while i < n
        invariant
            0 <= i <= n,
            forall|j: int|
                0 <= j < i ==> i64::MIN as int <= #[trigger] sample_num(*a, *b, n as int, j)
                    <= i64::MAX as int,
        decreases n - i,
    {
        let scaled: i128 = match (i as i128).checked_mul(step) {
            Some(v) => v,
            None => {
                proof {
                    assert(sample_num(*a, *b, n as int, i as int) == base + (i as int) * step);
                }
                return false;
            },
        };
        let num: i128 = match base.checked_add(scaled) {
            Some(v) => v,
            None => {
                proof {
                    assert(sample_num(*a, *b, n as int, i as int) == base + (i as int) * step);
                }
                return false;
            },
        };
        proof {
            assert(sample_num(*a, *b, n as int, i as int) == num);
        }
        if num > i64::MAX as i128 || num < i64::MIN as i128 {
            return false;
        }
        i = i + 1;
    }
    true
}

/// Law: the sequence starts exactly at `a` and ends exactly at `b` — not
/// merely near them.  The samples are rationals, so no rounding blurs the
/// endpoints.
pub proof fn lemma_endpoints(a: Rational, b: Rational, n: int, v: Seq<Rational>)
    requires
        rat_wf(a),
        rat_wf(b),
        n >= 2,
        is_linspace(a, b, n, v),
    ensures
        rat_eq(v[0], a),
        rat_eq(v[n - 1], b),
{
    let p = a.num as int;
    let q = a.den as int;
    let r = b.num as int;
    let s = b.den as int;
    assert(v[0].num == p * s * (n - 1) + 0 * step_num(a, b));
    assert(p * s * (n - 1) * q == p * (q * s * (n - 1))) by (nonlinear_arith);
    assert(v[n - 1].num == p * s * (n - 1) + (n - 1) * (r * q - p * s));
    assert(p * s * (n - 1) + (n - 1) * (r * q - p * s) == r * q * (n - 1)) by (nonlinear_arith);
    assert(r * q * (n - 1) * s == r * (q * s * (n - 1))) by (nonlinear_arith);
}

/// Law: the sequence is monotonically non-decreasing when `a <= b`, and
/// non-increasing when `b <= a` (so constant when the endpoints are equal).
pub proof fn lemma_monotone(a: Rational, b: Rational, n: int, v: Seq<Rational>)
    requires
        rat_wf(a),
        rat_wf(b),
        n >= 2,
        is_linspace(a, b, n, v),
    ensures
        rat_le(a, b) ==> forall|i: int| 0 <= i < n - 1 ==> rat_le(#[trigger] v[i], v[i + 1]),
        rat_le(b, a) ==> forall|i: int| 0 <= i < n - 1 ==> rat_le(#[trigger] v[i + 1], v[i]),
{
    let p = a.num as int;
    let q = a.den as int;
    let r = b.num as int;
    let s = b.den as int;
    let d = sample_den(a, b, n);
    assert(q * s * (n - 1) >= 1) by (nonlinear_arith)
        requires
            q >= 1,
            s >= 1,
            n >= 2,
    ;
    assert forall|i: int| #![trigger v[i]] 0 <= i < n - 1 implies (v[i + 1].num as int) - (
        v[i].num as int) == step_num(a, b) by {
        assert((i + 1) * step_num(a, b) - i * step_num(a, b) == step_num(a, b))
            by (nonlinear_arith);
    }
    if rat_le(a, b) {
        assert forall|i: int| 0 <= i < n - 1 implies rat_le(#[trigger] v[i], v[i + 1]) by {
            let x = v[i].num as int;
            let y = v[i + 1].num as int;
            assert(x * d <= y * d) by (nonlinear_arith)
                requires
                    x <= y,
                    d >= 1,
            ;
        }
    }
    if rat_le(b, a) {
        assert forall|i: int| 0 <= i < n - 1 implies rat_le(#[trigger] v[i + 1], v[i]) by {
            let x = v[i].num as int;
            let y = v[i + 1].num as int;
            assert(y * d <= x * d) by (nonlinear_arith)
                requires
                    y <= x,
                    d >= 1,
            ;
        }
    }
}

/// Law: consecutive samples differ by the constant step `(b - a) / (n - 1)`.
/// All samples share one denominator, the numerators advance by exactly
/// [`step_num`], and the difference equals the step as a rational — stated by
/// cross-multiplication against `step_num / sample_den`.
pub proof fn lemma_constant_step(a: Rational, b: Rational, n: int, v: Seq<Rational>)
    requires
        rat_wf(a),
        rat_wf(b),
        n >= 2,
        is_linspace(a, b, n, v),
    ensures
        forall|i: int| #![trigger v[i]]
            0 <= i < n - 1 ==> v[i + 1].den == v[i].den && (v[i + 1].num as int) - (
            v[i].num as int) == step_num(a, b),
        forall|i: int| #![trigger v[i]]
            0 <= i < n - 1 ==> ((v[i + 1].num as int) - (v[i].num as int)) * sample_den(a, b, n)
                == step_num(a, b) * (v[i].den as int),
{
    assert forall|i: int| #![trigger v[i]] 0 <= i < n - 1 implies (v[i + 1].num as int) - (
        v[i].num as int) == step_num(a, b) by {
        assert((i + 1) * step_num(a, b) - i * step_num(a, b) == step_num(a, b))
            by (nonlinear_arith);
    }
}

/// Law: the output is a function of the inputs alone — any two sequences
/// that satisfy the generator's contract for the same `(a, b, n)` are equal,
/// so repeated calls with identical inputs yield identical sequences.
pub proof fn lemma_deterministic(
    a: Rational,
    b: Rational,
    n: int,
    v1: Seq<Rational>,
    v2: Seq<Rational>,
)
    requires
        is_linspace(a, b, n, v1),
        is_linspace(a, b, n, v2),
    ensures
        v1 == v2,
{
    assert forall|i: int| 0 <= i < n implies v1[i] == v2[i] by {
        assert(v1[i].num == v2[i].num);
        assert(v1[i].den == v2[i].den);
    }
    assert(v1 =~= v2);
}

} // verus!
