//! Small arithmetic helpers shared by the combat rules.

use vstd::prelude::*;

verus! {

/// Multiplies two 64-bit quantities, widening to 128 bits so the product
/// can never overflow.
pub fn safe_multiply(a: u64, b: u64) -> (r: u128)
    ensures
        r == a * b,
{
    proof {
        assert((a as int) * (b as int) <= u128::MAX as int) by (nonlinear_arith)
            requires
                a <= u64::MAX,
                b <= u64::MAX,
        ;
    }
    (a as u128) * (b as u128)
}

/// A product of two quantities is bounded by the product of their bounds.
pub proof fn lemma_mul_le(a: int, b: int, x: int, y: int)
    requires
        0 <= a <= x,
        0 <= b <= y,
    ensures
        a * b <= x * y,
{
    assert(a * b <= x * y) by (nonlinear_arith)
        requires
            0 <= a <= x,
            0 <= b <= y,
    ;
}

/// Dividing by a positive constant preserves order.
pub proof fn lemma_div_le(a: int, b: int, d: int)
    requires
        0 <= a <= b,
        0 < d,
    ensures
        a / d <= b / d,
        0 <= a / d,
{
    assert(a / d <= b / d && 0 <= a / d) by (nonlinear_arith)
        requires
            0 <= a <= b,
            0 < d,
    ;
}

/// A square of a quantity within `[-m, m]` lies within `[0, m * m]`.
pub proof fn lemma_square_bound(a: int, m: int)
    requires
        -m <= a <= m,
        0 <= m,
    ensures
        0 <= a * a <= m * m,
{
    assert(0 <= a * a <= m * m) by (nonlinear_arith)
        requires
            -m <= a <= m,
            0 <= m,
    ;
}

} // verus!
