use vstd::prelude::*;

verus! {

/// `m * b` lies between `0` and `n * b` for `0 <= m <= n`, so it is
/// representable whenever `n * b` is.
pub proof fn lemma_scaled_within(m: int, n: int, b: int)
    requires
        0 <= m <= n,
        i64::MIN <= n * b <= i64::MAX,
    ensures
        i64::MIN <= m * b <= i64::MAX,
        m * b == b * m,
{
    assert(m * b == b * m) by (nonlinear_arith);
    if b >= 0 {
        assert(0 <= m * b <= n * b) by (nonlinear_arith)
            requires 0 <= m <= n, b >= 0;
    } else {
        assert(n * b <= m * b <= 0) by (nonlinear_arith)
            requires 0 <= m <= n, b < 0;
    }
}

/// `a - m * b` lies between `a` and `a - n * b` for `0 <= m <= n`, so it is
/// representable whenever those two are.
pub proof fn lemma_shifted_within(a: int, b: int, m: int, n: int)
    requires
        0 <= m <= n,
        i64::MIN <= a <= i64::MAX,
        i64::MIN <= a - n * b <= i64::MAX,
    ensures
        i64::MIN <= a - m * b <= i64::MAX,
{
    if b >= 0 {
        assert(0 <= m * b <= n * b) by (nonlinear_arith)
            requires 0 <= m <= n, b >= 0;
    } else {
        assert(n * b <= m * b <= 0) by (nonlinear_arith)
            requires 0 <= m <= n, b < 0;
    }
}

/// The product of a `u64`-sized count and an `i64` is bounded so that it,
/// and an `i64` minus it, fit in `i128`.
pub proof fn lemma_wide_product(n: int, b: int)
    requires
        0 <= n <= u64::MAX,
        i64::MIN <= b <= i64::MAX,
    ensures
        -(u64::MAX * 0x8000_0000_0000_0000) <= n * b <= u64::MAX * 0x7fff_ffff_ffff_ffff,
{
    if b >= 0 {
        assert(0 <= n * b <= u64::MAX * 0x7fff_ffff_ffff_ffff) by (nonlinear_arith)
            requires 0 <= n <= u64::MAX, 0 <= b <= 0x7fff_ffff_ffff_ffff;
    } else {
        assert(-(u64::MAX * 0x8000_0000_0000_0000) <= n * b <= 0) by (nonlinear_arith)
            requires 0 <= n <= u64::MAX, -0x8000_0000_0000_0000 <= b < 0;
    }
}

} // verus!
