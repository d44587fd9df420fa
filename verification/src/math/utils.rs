//! Equality and range helpers shared by the vector and matrix types.

use vstd::prelude::*;

verus! {

/// True when the mathematical integer `x` fits in an `i32`.
///
/// The arithmetic methods of the vector and matrix types state their
/// no-overflow preconditions with this predicate.
pub open spec fn fits_i32(x: int) -> bool {
    i32::MIN <= x <= i32::MAX
}

/// Truncating (round-toward-zero) division, the semantics of `/` on `i32`.
pub open spec fn tdiv(a: int, b: int) -> int {
    if a >= 0 {
        a / b
    } else {
        -((-a) / b)
    }
}

/// The components of a machine-integer sequence as mathematical integers.
pub open spec fn to_ints(s: Seq<i32>) -> Seq<int> {
    s.map_values(|v: i32| v as int)
}

/// The dot product of the first `n` components of `a` and `b`:
/// `a[0] * b[0] + ... + a[n - 1] * b[n - 1]`.
pub open spec fn dot_int(a: Seq<int>, b: Seq<int>, n: int) -> int
    decreases n,
{
    if n <= 0 {
        0
    } else {
        dot_int(a, b, n - 1) + a[n - 1] * b[n - 1]
    }
}

/// Elementwise sum of two equal-length integer sequences.
pub open spec fn add_int(a: Seq<int>, b: Seq<int>) -> Seq<int> {
    Seq::new(a.len(), |i: int| a[i] + b[i])
}

/// Elementwise difference of two equal-length integer sequences.
pub open spec fn sub_int(a: Seq<int>, b: Seq<int>) -> Seq<int> {
    Seq::new(a.len(), |i: int| a[i] - b[i])
}

/// Elementwise product of two equal-length integer sequences.
pub open spec fn mul_int(a: Seq<int>, b: Seq<int>) -> Seq<int> {
    Seq::new(a.len(), |i: int| a[i] * b[i])
}

/// Elementwise truncating quotient of two equal-length integer sequences.
pub open spec fn div_int(a: Seq<int>, b: Seq<int>) -> Seq<int> {
    Seq::new(a.len(), |i: int| tdiv(a[i], b[i]))
}

/// Every component scaled by `c`.
pub open spec fn scale_int(a: Seq<int>, c: int) -> Seq<int> {
    Seq::new(a.len(), |i: int| a[i] * c)
}

/// Every component divided (truncating) by `c`.
pub open spec fn scale_div_int(a: Seq<int>, c: int) -> Seq<int> {
    Seq::new(a.len(), |i: int| tdiv(a[i], c))
}

/// Every component negated.
pub open spec fn neg_int(a: Seq<int>) -> Seq<int> {
    Seq::new(a.len(), |i: int| -a[i])
}

/// Truncating division of an `i32` by a nonzero `i32` stays in range,
/// except for `i32::MIN / -1`, which the callers rule out.
pub proof fn lemma_tdiv_fits(a: int, b: int)
    requires
        fits_i32(a),
        b != 0,
        !(a == i32::MIN && b == -1),
    ensures
        fits_i32(tdiv(a, b)),
{
    if a >= 0 {
        assert(-a <= a / b <= a) by (nonlinear_arith)
            requires
                0 <= a,
                b != 0,
        ;
    } else {
        let d = -a;
        assert(-d <= d / b <= d) by (nonlinear_arith)
            requires
                0 <= d,
                b != 0,
        ;
        assert(d / b == -d ==> b == -1) by (nonlinear_arith)
            requires
                0 < d,
                b != 0,
        ;
    }
}

/// The sum `f(0) + f(1) + ... + f(n - 1)`.
pub open spec fn sum_int(f: spec_fn(int) -> int, n: int) -> int
    decreases n,
{
    if n <= 0 {
        0
    } else {
        sum_int(f, n - 1) + f(n - 1)
    }
}

/// Sums of pointwise equal functions are equal.
pub proof fn lemma_sum_congruence(f: spec_fn(int) -> int, g: spec_fn(int) -> int, n: int)
    requires
        forall|i: int| 0 <= i < n ==> #[trigger] f(i) == g(i),
    ensures
        sum_int(f, n) == sum_int(g, n),
    decreases n,
{
    if n > 0 {
        lemma_sum_congruence(f, g, n - 1);
    }
}

/// The dot product is the sum of the pairwise products.
pub proof fn lemma_dot_int_as_sum(a: Seq<int>, b: Seq<int>, f: spec_fn(int) -> int, n: int)
    requires
        forall|i: int| 0 <= i < n ==> #[trigger] f(i) == a[i] * b[i],
    ensures
        dot_int(a, b, n) == sum_int(f, n),
    decreases n,
{
    if n > 0 {
        lemma_dot_int_as_sum(a, b, f, n - 1);
    }
}

/// A common factor moves out of a sum.
pub proof fn lemma_sum_scale(f: spec_fn(int) -> int, g: spec_fn(int) -> int, c: int, n: int)
    requires
        forall|i: int| 0 <= i < n ==> #[trigger] g(i) == c * f(i),
    ensures
        sum_int(g, n) == c * sum_int(f, n),
    decreases n,
{
    if n <= 0 {
        assert(c * 0 == 0) by (nonlinear_arith);
    } else {
        lemma_sum_scale(f, g, c, n - 1);
        lemma_mul_dist(c, sum_int(f, n - 1), f(n - 1));
    }
}

/// Sums of pointwise sums add up.
pub proof fn lemma_sum_add(
    f: spec_fn(int) -> int,
    g: spec_fn(int) -> int,
    h: spec_fn(int) -> int,
    n: int,
)
    requires
        forall|i: int| 0 <= i < n ==> #[trigger] h(i) == f(i) + g(i),
    ensures
        sum_int(h, n) == sum_int(f, n) + sum_int(g, n),
    decreases n,
{
    if n > 0 {
        lemma_sum_add(f, g, h, n - 1);
    }
}

/// A sum of zeroes is zero.
pub proof fn lemma_sum_zero(f: spec_fn(int) -> int, n: int)
    requires
        forall|i: int| 0 <= i < n ==> #[trigger] f(i) == 0,
    ensures
        sum_int(f, n) == 0,
    decreases n,
{
    if n > 0 {
        lemma_sum_zero(f, n - 1);
    }
}

/// A finite double sum does not depend on the summation order.
pub proof fn lemma_sum_swap(
    g: spec_fn(int, int) -> int,
    fs: spec_fn(int) -> int,
    fk: spec_fn(int) -> int,
    n1: int,
    n2: int,
)
    requires
        forall|s: int| 0 <= s < n1 ==> #[trigger] fs(s) == sum_int(|k: int| g(s, k), n2),
        forall|k: int| 0 <= k < n2 ==> #[trigger] fk(k) == sum_int(|s: int| g(s, k), n1),
    ensures
        sum_int(fs, n1) == sum_int(fk, n2),
    decreases n1,
{
    if n1 <= 0 {
        assert forall|k: int| 0 <= k < n2 implies #[trigger] fk(k) == 0 by {
            assert(sum_int(|s: int| g(s, k), n1) == 0);
        }
        lemma_sum_zero(fk, n2);
    } else {
        let fk1 = |k: int| sum_int(|s: int| g(s, k), n1 - 1);
        lemma_sum_swap(g, fs, fk1, n1 - 1, n2);
        assert(fs(n1 - 1) == sum_int(|k: int| g(n1 - 1, k), n2));
        assert forall|k: int| 0 <= k < n2 implies #[trigger] fk(k) == fk1(k) + g(n1 - 1, k) by {
            assert(sum_int(|s: int| g(s, k), n1) == sum_int(|s: int| g(s, k), n1 - 1) + g(
                n1 - 1,
                k,
            ));
        }
        lemma_sum_add(fk1, |k: int| g(n1 - 1, k), fk, n2);
        assert(sum_int(fs, n1) == sum_int(fs, n1 - 1) + fs(n1 - 1));
    }
}

/// Multiplication distributes over subtraction.
pub proof fn lemma_mul_dist(x: int, p: int, q: int)
    by (nonlinear_arith)
    ensures
        x * (p - q) == x * p - x * q,
        x * (p + q) == x * p + x * q,
{
}

/// Multiplication is commutative.
pub proof fn lemma_mul_comm(x: int, y: int)
    by (nonlinear_arith)
    ensures
        x * y == y * x,
{
}

/// A product of three factors does not depend on their order or grouping.
pub proof fn lemma_mul3(x: int, y: int, z: int)
    by (nonlinear_arith)
    ensures
        x * (y * z) == y * (x * z),
        x * (y * z) == z * (x * y),
        x * (y * z) == x * (z * y),
        x * (y * z) == x * y * z,
{
}

/// Approximate equality. For integer element types this is exact equality;
/// floating-point element types, which would compare within a tolerance,
/// have no instance here.
pub trait ApproxEq<Rhs = Self> {
    fn approx_eq(&self, other: &Rhs) -> bool;
}

impl ApproxEq for i32 {
    fn approx_eq(&self, other: &i32) -> (r: bool)
        ensures
            r == (self == other),
    {
        *self == *other
    }
}

} // verus!
