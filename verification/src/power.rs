use vstd::prelude::*;

verus! {

/// The sixth power of `x`.
pub open spec fn pow6_val(x: int) -> int {
    x * x * x * x * x * x
}

/// Every intermediate of the three-squaring route to the sixth power stays
/// in `i64` range when the base is within 1448, and the route lands on
/// [`pow6_val`].
proof fn lemma_pow6_bounds(x: int)
    by (nonlinear_arith)
    requires
        -1448 <= x <= 1448,
    ensures
        0 <= x * x <= 2096704,
        -3036027392 <= (x * x) * x <= 3036027392,
        0 <= ((x * x) * x) * ((x * x) * x) <= 0x7fff_ffff_ffff_ffff,
        ((x * x) * x) * ((x * x) * x) == pow6_val(x),
{
}

/// Raises each element to its sixth power.  The bound 1448 on the inputs is
/// exactly the set of integers whose sixth power fits in `i64`: `1448^6`
/// is below `i64::MAX` while `1449^6` is above it.
pub fn pow6(x: Vec<i64>) -> (r: Vec<i64>)
    requires
        forall|i: int| 0 <= i < x@.len() ==> -1448 <= #[trigger] x@[i] <= 1448,
    ensures
        r@.len() == x@.len(),
        forall|i: int| 0 <= i < x@.len() ==> #[trigger] r@[i] == pow6_val(x@[i] as int),
{
    let mut r: Vec<i64> = Vec::new();
    let mut k: usize = 0;
    #[verifier::loop_isolation(false)]
    while k < x.len()
        invariant
            0 <= k <= x@.len(),
            r@.len() == k,
            forall|i: int| 0 <= i < k ==> #[trigger] r@[i] == pow6_val(x@[i] as int),
        decreases x@.len() - k,
    {
        let v = x[k];
        proof {
            lemma_pow6_bounds(v as int);
        }
        let v2 = v * v;
        let v3 = v2 * v;
        let v6 = v3 * v3;
        r.push(v6);
        k = k + 1;
    }
    r
}

} // verus!
