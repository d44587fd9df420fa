//! Fixed-size integer matrix stored as an array of column vectors.

use vstd::prelude::*;

use crate::math::utils::dot_int;
use crate::math::utils::lemma_dot_int_as_sum;
use crate::math::utils::lemma_mul3;
use crate::math::utils::lemma_mul_comm;
use crate::math::utils::lemma_sum_congruence;
use crate::math::utils::lemma_sum_scale;
use crate::math::utils::lemma_sum_swap;
use crate::math::utils::sum_int;
use crate::math::utils::lemma_mul_dist;
use crate::math::utils::scale_int;
use crate::math::utils::fits_i32;
use crate::math::utils::to_ints;
use crate::math::vector::Vector;

verus! {

/// Row `r` of a matrix given as a sequence of columns.
pub open spec fn row_int(m: Seq<Seq<int>>, r: int) -> Seq<int> {
    Seq::new(m.len(), |c: int| m[c][r])
}

/// The transpose of a matrix with `rows` rows, given as a sequence of
/// columns: column `r` of the result is row `r` of the argument.
pub open spec fn transpose_int(m: Seq<Seq<int>>, rows: nat) -> Seq<Seq<int>> {
    Seq::new(rows, |r: int| row_int(m, r))
}

/// The matrix product of `a` (with `rows` rows) and `b`, both given as
/// sequences of columns: entry (r, j) of the result is the dot product of
/// row `r` of `a` with column `j` of `b`.
pub open spec fn mat_mul_int(a: Seq<Seq<int>>, b: Seq<Seq<int>>, rows: nat) -> Seq<Seq<int>> {
    Seq::new(b.len(), |j: int| Seq::new(rows, |r: int| dot_int(row_int(a, r), b[j], a.len() as int)))
}

/// The square matrix with ones on the diagonal and zeroes elsewhere.
pub open spec fn identity_int(n: nat) -> Seq<Seq<int>> {
    Seq::new(n, |j: int| Seq::new(n, |i: int| if i == j { 1int } else { 0int }))
}

/// The all-zero matrix with the given shape.
pub open spec fn zero_int(rows: nat, cols: nat) -> Seq<Seq<int>> {
    Seq::new(cols, |j: int| Seq::new(rows, |i: int| 0int))
}

/// A matrix of `R` rows and `C` columns of integers, stored column-major as
/// an array of column vectors. Its view is the sequence of its columns'
/// views, so `self@[j][i]` is the entry at column `j`, row `i`.
#[derive(Debug, Clone, Copy)]
pub struct Matrix<const R: usize, const C: usize> {
    pub columns: [Vector<R>; C],
}

impl<const R: usize, const C: usize> View for Matrix<R, C> {
    type V = Seq<Seq<int>>;

    open spec fn view(&self) -> Seq<Seq<int>> {
        Seq::new(C as nat, |j: int| self.columns@[j]@)
    }
}

impl<const R: usize, const C: usize> Matrix<R, C> {
    /// Build a matrix from its columns, given innermost-first: `elements[j]`
    /// becomes column `j`.
    pub fn new(elements: [[i32; R]; C]) -> (m: Self)
        ensures
            forall|j: int| 0 <= j < C ==> m@[j] == to_ints(#[trigger] elements@[j]@),
    {
        let mut columns: [Vector<R>; C] = [Vector::zero(); C];
        let mut j: usize = 0;
        while j < C
            invariant
                j <= C,
                columns@.len() == C,
                forall|k: int| 0 <= k < j ==> (#[trigger] columns@[k])@ == to_ints(elements@[k]@),
            decreases C - j,
        {
            columns[j] = Vector::from_slice(elements[j]);
            j = j + 1;
        }
        Matrix { columns }
    }

    /// The number of columns, the compile-time parameter `C`.
    pub fn columns(&self) -> (r: usize)
        ensures
            r == C,
    {
        C
    }

    /// The number of rows, the compile-time parameter `R`.
    pub fn rows(&self) -> (r: usize)
        ensures
            r == R,
    {
        R
    }

    /// Column `i`, as a direct reference.
    pub fn column(&self, i: usize) -> (r: &Vector<R>)
        requires
            i < C,
        ensures
            r@ == self@[i as int],
    {
        &self.columns[i]
    }

    /// Row `i`, gathered one element from each column.
    pub fn row(&self, i: usize) -> (r: Vector<C>)
        requires
            i < R,
        ensures
            r@ == row_int(self@, i as int),
    {
        let mut e: [i32; C] = [0; C];
        let mut c: usize = 0;
        while c < C
            invariant
                c <= C,
                i < R,
                e@.len() == C,
                forall|k: int| 0 <= k < c ==> e@[k] == self@[k][i as int],
            decreases C - c,
        {
            assert(self@[c as int][i as int] == self.columns@[c as int].e@[i as int]);
            e[c] = self.columns[c].e[i];
            c = c + 1;
        }
        let r = Vector { e };
        assert(r@ =~= row_int(self@, i as int));
        r
    }

    /// The matrix with every entry zero.
    pub fn zero() -> (m: Self)
        ensures
            m@ == zero_int(R as nat, C as nat),
    {
        let m = Matrix { columns: [Vector::<R>::zero(); C] };
        assert(m@ =~~= zero_int(R as nat, C as nat));
        m
    }

    /// The transpose: entry (r, c) of the result is entry (c, r) of `self`.
    pub fn transposed(&self) -> (m: Matrix<C, R>)
        ensures
            m@ == transpose_int(self@, R as nat),
    {
        let mut columns: [Vector<C>; R] = [Vector::zero(); R];
        let mut r: usize = 0;
        while r < R
            invariant
                r <= R,
                columns@.len() == R,
                forall|k: int| 0 <= k < r ==> (#[trigger] columns@[k])@ == row_int(self@, k),
            decreases R - r,
        {
            columns[r] = self.row(r);
            r = r + 1;
        }
        let m = Matrix { columns };
        assert(m@ =~~= transpose_int(self@, R as nat));
        m
    }
}

impl<const S: usize> Matrix<S, S> {
    /// The identity matrix: ones on the diagonal, zeroes elsewhere.
    pub fn identity() -> (m: Self)
        ensures
            m@ == identity_int(S as nat),
    {
        let mut columns: [Vector<S>; S] = [Vector::zero(); S];
        let mut j: usize = 0;
        while j < S
            invariant
                j <= S,
                columns@.len() == S,
                forall|k: int| 0 <= k < j ==> (#[trigger] columns@[k])@ == identity_int(S as nat)[k],
            decreases S - j,
        {
            let mut e: [i32; S] = [0; S];
            e[j] = 1;
            columns[j] = Vector { e };
            assert(columns@[j as int]@ =~= identity_int(S as nat)[j as int]);
            j = j + 1;
        }
        let m = Matrix { columns };
        assert(m@ =~~= identity_int(S as nat));
        m
    }
}

impl<const R: usize, const C: usize> PartialEq for Matrix<R, C> {
    /// Two matrices are equal when all corresponding entries are equal.
    fn eq(&self, other: &Self) -> (r: bool) {
        let mut j: usize = 0;
        while j < C
            invariant
                j <= C,
                forall|k: int| 0 <= k < j ==> self@[k] == other@[k],
            decreases C - j,
        {
            if !(self.columns[j] == other.columns[j]) {
                assert(self@[j as int] != other@[j as int]);
                return false;
            }
            assert(self@[j as int] == other@[j as int]);
            j = j + 1;
        }
        assert(self@ =~= other@);
        true
    }
}

impl<const R: usize, const C: usize> vstd::std_specs::cmp::PartialEqSpecImpl for Matrix<R, C> {
    open spec fn obeys_eq_spec() -> bool {
        true
    }

    open spec fn eq_spec(&self, other: &Matrix<R, C>) -> bool {
        self@ == other@
    }
}

impl<const R: usize, const C: usize> core::ops::Index<usize> for Matrix<R, C> {
    type Output = Vector<R>;

    /// Column access by position, so `m[j][i]` is the entry at column `j`,
    /// row `i`.
    fn index(&self, index: usize) -> (r: &Vector<R>)
        ensures
            r@ == self@[index as int],
    {
        &self.columns[index]
    }
}

impl<const R: usize, const C: usize> vstd::std_specs::core::IndexSpecImpl<usize> for Matrix<R, C> {
    open spec fn index_req(&self, index: &usize) -> bool {
        *index < C
    }
}

impl<const R: usize, const C: usize, const K: usize> core::ops::Mul<&Matrix<C, K>> for &Matrix<R, C> {
    type Output = Matrix<R, K>;

    /// Matrix product: entry (r, j) of the result is the dot product of row
    /// `r` of `self` with column `j` of `other`. The inner dimensions agree
    /// at the type level through the shared parameter `C`.
    fn mul(self, other: &Matrix<C, K>) -> (m: Matrix<R, K>)
        ensures
            m@ == mat_mul_int(self@, other@, R as nat),
    {
        let mut columns: [Vector<R>; K] = [Vector::zero(); K];
        let mut j: usize = 0;
        while j < K
            invariant
                j <= K,
                columns@.len() == K,
                forall|q: int, r: int, k: int|
                    0 <= q < K && 0 <= r < R && 0 <= k < C ==> fits_i32(
                        row_int(self@, r)[k] * other@[q][k],
                    ),
                forall|q: int, r: int, k: int|
                    0 <= q < K && 0 <= r < R && 0 <= k <= C ==> fits_i32(
                        dot_int(row_int(self@, r), other@[q], k),
                    ),
                forall|q: int| 0 <= q < j ==> (#[trigger] columns@[q])@ == mat_mul_int(
                    self@,
                    other@,
                    R as nat,
                )[q],
            decreases K - j,
        {
            let mut e: [i32; R] = [0; R];
            let mut r: usize = 0;
            while r < R
                invariant
                    r <= R,
                    j < K,
                    e@.len() == R,
                    forall|q: int, rr: int, k: int|
                        0 <= q < K && 0 <= rr < R && 0 <= k < C ==> fits_i32(
                            row_int(self@, rr)[k] * other@[q][k],
                        ),
                    forall|q: int, rr: int, k: int|
                        0 <= q < K && 0 <= rr < R && 0 <= k <= C ==> fits_i32(
                            dot_int(row_int(self@, rr), other@[q], k),
                        ),
                    forall|q: int| 0 <= q < r ==> e@[q] == dot_int(
                        row_int(self@, q),
                        other@[j as int],
                        C as int,
                    ),
                decreases R - r,
            {
                let rowv = self.row(r);
                e[r] = rowv.dot(other.column(j));
                r = r + 1;
            }
            columns[j] = Vector { e };
            assert(columns@[j as int]@ =~= mat_mul_int(self@, other@, R as nat)[j as int]);
            j = j + 1;
        }
        let m = Matrix { columns };
        assert(m@ =~~= mat_mul_int(self@, other@, R as nat));
        m
    }
}

impl<const R: usize, const C: usize, const K: usize> vstd::std_specs::ops::MulSpecImpl<&Matrix<C, K>> for &Matrix<R, C> {
    /// An array-backed value cannot be built from its view in spec code, so
    /// the product is not named here; the contract stands as `ensures`
    /// clauses on the operator implementation instead.
    open spec fn obeys_mul_spec() -> bool {
        false
    }

    open spec fn mul_req(self, rhs: &Matrix<C, K>) -> bool {
        (forall|q: int, r: int, k: int|
            0 <= q < K && 0 <= r < R && 0 <= k < C ==> fits_i32(
                row_int(self@, r)[k] * rhs@[q][k],
            )) && (forall|q: int, r: int, k: int|
            0 <= q < K && 0 <= r < R && 0 <= k <= C ==> fits_i32(
                dot_int(row_int(self@, r), rhs@[q], k),
            ))
    }

    open spec fn mul_spec(self, rhs: &Matrix<C, K>) -> Matrix<R, K> {
        arbitrary()
    }
}

/// Every entry scaled by `c`.
pub open spec fn mat_scale_int(m: Seq<Seq<int>>, c: int) -> Seq<Seq<int>> {
    Seq::new(m.len(), |j: int| scale_int(m[j], c))
}

/// The adjugate (classical adjoint) of a 2-by-2 matrix given as a sequence
/// of columns.
pub open spec fn adj2_int(m: Seq<Seq<int>>) -> Seq<Seq<int>> {
    seq![seq![m[1][1], -m[0][1]], seq![-m[1][0], m[0][0]]]
}

/// The determinant of a 2-by-2 matrix given as a sequence of columns.
pub open spec fn det2_int(m: Seq<Seq<int>>) -> int {
    m[0][0] * m[1][1] - m[1][0] * m[0][1]
}

impl Matrix<2, 2> {
    /// The adjugate: the transposed matrix of cofactors, by closed-form
    /// expansion.
    pub fn adjoint(&self) -> (m: Self)
        requires
            self@[0][1] != i32::MIN,
            self@[1][0] != i32::MIN,
        ensures
            m@ == adj2_int(self@),
    {
        let m = Matrix {
            columns: [
                Vector { e: [self.columns[1].e[1], -self.columns[0].e[1]] },
                Vector { e: [-self.columns[1].e[0], self.columns[0].e[0]] },
            ],
        };
        assert(m@ =~~= adj2_int(self@));
        m
    }

    /// The determinant, recovered as the dot product of the first row with
    /// the first column of the adjugate.
    pub fn determinant(&self) -> (r: i32)
        requires
            self@[0][1] != i32::MIN,
            self@[1][0] != i32::MIN,
            fits_i32(self@[0][0] * self@[1][1]),
            fits_i32(self@[1][0] * self@[0][1]),
            fits_i32(-(self@[1][0] * self@[0][1])),
            fits_i32(det2_int(self@)),
        ensures
            r == det2_int(self@),
    {
        let adj = self.adjoint();
        proof {
            reveal_with_fuel(dot_int, 3);
            let row0 = row_int(self@, 0);
            let col0 = adj2_int(self@)[0];
            assert(row0 =~= seq![self@[0][0], self@[1][0]]);
            assert(col0 =~= seq![self@[1][1], -self@[0][1]]);
            assert(self@[1][0] * (-self@[0][1]) == -(self@[1][0] * self@[0][1]))
                by (nonlinear_arith);
            assert(row0[0] * col0[0] == self@[0][0] * self@[1][1]);
            assert(row0[1] * col0[1] == -(self@[1][0] * self@[0][1]));
            assert(forall|k: int| 0 <= k < 2 ==> fits_i32(#[trigger] (row0[k] * col0[k])));
            assert(dot_int(row0, col0, 0) == 0);
            assert(dot_int(row0, col0, 1) == row0[0] * col0[0]);
            assert(dot_int(row0, col0, 2) == row0[0] * col0[0] + row0[1] * col0[1]);
            assert(forall|k: int| 0 <= k <= 2 ==> fits_i32(dot_int(row0, col0, k)));
        }
        let r = self.row(0).dot(adj.column(0));
        assert(r == det2_int(self@));
        r
    }
}

/// The defining identity of the adjugate for 2-by-2 matrices:
/// `M * adj(M) == det(M) * I`.
pub proof fn lemma_mul_adjoint_2(m: Matrix<2, 2>)
    ensures
        mat_mul_int(m@, adj2_int(m@), 2) == mat_scale_int(identity_int(2), det2_int(m@)),
{
    reveal_with_fuel(dot_int, 3);
    let a: int = m@[0][0];
    let b: int = m@[1][0];
    let c: int = m@[0][1];
    let d: int = m@[1][1];
    let p = mat_mul_int(m@, adj2_int(m@), 2);
    assert(row_int(m@, 0) =~= seq![a, b]);
    assert(row_int(m@, 1) =~= seq![c, d]);
    assert(adj2_int(m@)[0] =~= seq![d, -c]);
    assert(adj2_int(m@)[1] =~= seq![-b, a]);
    assert(p[0][0] == a * d + b * (-c));
    assert(p[0][1] == c * d + d * (-c));
    assert(p[1][0] == a * (-b) + b * a);
    assert(p[1][1] == c * (-b) + d * a);
    assert(c * d + d * (-c) == 0) by (nonlinear_arith);
    assert(a * (-b) + b * a == 0) by (nonlinear_arith);
    assert(a * d + b * (-c) == a * d - b * c) by (nonlinear_arith);
    assert(c * (-b) + d * a == a * d - b * c) by (nonlinear_arith);
    assert(mat_mul_int(m@, adj2_int(m@), 2) =~~= mat_scale_int(identity_int(2), det2_int(m@)));
}

/// Transposing twice gives back the original matrix.
pub proof fn lemma_transpose_involutive<const R: usize, const C: usize>(m: Matrix<R, C>)
    ensures
        transpose_int(transpose_int(m@, R as nat), C as nat) == m@,
{
    assert(transpose_int(transpose_int(m@, R as nat), C as nat) =~~= m@);
}

/// The adjugate (classical adjoint) of a 3-by-3 matrix given as a sequence
/// of columns, by closed-form cofactor expansion.
pub open spec fn adj3_int(m: Seq<Seq<int>>) -> Seq<Seq<int>> {
    seq![
        seq![
            m[1][1] * m[2][2] - m[2][1] * m[1][2],
            m[2][1] * m[0][2] - m[0][1] * m[2][2],
            m[0][1] * m[1][2] - m[1][1] * m[0][2],
        ],
        seq![
            m[2][0] * m[1][2] - m[1][0] * m[2][2],
            m[0][0] * m[2][2] - m[2][0] * m[0][2],
            m[1][0] * m[0][2] - m[0][0] * m[1][2],
        ],
        seq![
            m[1][0] * m[2][1] - m[2][0] * m[1][1],
            m[2][0] * m[0][1] - m[0][0] * m[2][1],
            m[0][0] * m[1][1] - m[1][0] * m[0][1],
        ],
    ]
}

/// The determinant of a 3-by-3 matrix given as a sequence of columns:
/// the first row dotted with the first column of the adjugate.
pub open spec fn det3_int(m: Seq<Seq<int>>) -> int {
    m[0][0] * (m[1][1] * m[2][2] - m[2][1] * m[1][2]) + m[1][0] * (m[2][1] * m[0][2] - m[0][1]
        * m[2][2]) + m[2][0] * (m[0][1] * m[1][2] - m[1][1] * m[0][2])
}

/// Every cofactor of a 3-by-3 matrix can be computed in `i32` arithmetic:
/// both products of each cofactor and their difference are in range.
pub open spec fn adj3_fits(m: Seq<Seq<int>>) -> bool {
    &&& fits_i32(m[1][1] * m[2][2]) && fits_i32(m[2][1] * m[1][2]) && fits_i32(
        m[1][1] * m[2][2] - m[2][1] * m[1][2],
    )
    &&& fits_i32(m[2][1] * m[0][2]) && fits_i32(m[0][1] * m[2][2]) && fits_i32(
        m[2][1] * m[0][2] - m[0][1] * m[2][2],
    )
    &&& fits_i32(m[0][1] * m[1][2]) && fits_i32(m[1][1] * m[0][2]) && fits_i32(
        m[0][1] * m[1][2] - m[1][1] * m[0][2],
    )
    &&& fits_i32(m[2][0] * m[1][2]) && fits_i32(m[1][0] * m[2][2]) && fits_i32(
        m[2][0] * m[1][2] - m[1][0] * m[2][2],
    )
    &&& fits_i32(m[0][0] * m[2][2]) && fits_i32(m[2][0] * m[0][2]) && fits_i32(
        m[0][0] * m[2][2] - m[2][0] * m[0][2],
    )
    &&& fits_i32(m[1][0] * m[0][2]) && fits_i32(m[0][0] * m[1][2]) && fits_i32(
        m[1][0] * m[0][2] - m[0][0] * m[1][2],
    )
    &&& fits_i32(m[1][0] * m[2][1]) && fits_i32(m[2][0] * m[1][1]) && fits_i32(
        m[1][0] * m[2][1] - m[2][0] * m[1][1],
    )
    &&& fits_i32(m[2][0] * m[0][1]) && fits_i32(m[0][0] * m[2][1]) && fits_i32(
        m[2][0] * m[0][1] - m[0][0] * m[2][1],
    )
    &&& fits_i32(m[0][0] * m[1][1]) && fits_i32(m[1][0] * m[0][1]) && fits_i32(
        m[0][0] * m[1][1] - m[1][0] * m[0][1],
    )
}

/// The determinant of a 3-by-3 matrix can be computed in `i32` arithmetic:
/// the cofactors fit, and so do the products and partial sums of the first
/// row with the first adjugate column.
pub open spec fn det3_fits(m: Seq<Seq<int>>) -> bool {
    &&& adj3_fits(m)
    &&& fits_i32(m[0][0] * adj3_int(m)[0][0])
    &&& fits_i32(m[1][0] * adj3_int(m)[0][1])
    &&& fits_i32(m[2][0] * adj3_int(m)[0][2])
    &&& fits_i32(m[0][0] * adj3_int(m)[0][0] + m[1][0] * adj3_int(m)[0][1])
    &&& fits_i32(det3_int(m))
}

impl Matrix<3, 3> {
    /// The adjugate: the transposed matrix of cofactors, by closed-form
    /// cofactor expansion.
    pub fn adjoint(&self) -> (m: Self)
        requires
            adj3_fits(self@),
        ensures
            m@ == adj3_int(self@),
    {
        let x00 = self.columns[0].e[0];
        let x01 = self.columns[1].e[0];
        let x02 = self.columns[2].e[0];
        let x10 = self.columns[0].e[1];
        let x11 = self.columns[1].e[1];
        let x12 = self.columns[2].e[1];
        let x20 = self.columns[0].e[2];
        let x21 = self.columns[1].e[2];
        let x22 = self.columns[2].e[2];
        let m = Matrix {
            columns: [
                Vector { e: [x11 * x22 - x12 * x21, x12 * x20 - x10 * x22, x10 * x21 - x11 * x20] },
                Vector { e: [x02 * x21 - x01 * x22, x00 * x22 - x02 * x20, x01 * x20 - x00 * x21] },
                Vector { e: [x01 * x12 - x02 * x11, x02 * x10 - x00 * x12, x00 * x11 - x01 * x10] },
            ],
        };
        assert(m@ =~~= adj3_int(self@));
        m
    }

    /// The determinant, recovered as the dot product of the first row with
    /// the first column of the adjugate.
    pub fn determinant(&self) -> (r: i32)
        requires
            det3_fits(self@),
        ensures
            r == det3_int(self@),
    {
        let adj = self.adjoint();
        proof {
            reveal_with_fuel(dot_int, 4);
            let row0 = row_int(self@, 0);
            let col0 = adj3_int(self@)[0];
            assert(row0 =~= seq![self@[0][0], self@[1][0], self@[2][0]]);
            assert(forall|k: int| 0 <= k < 3 ==> fits_i32(#[trigger] (row0[k] * col0[k])));
            assert(dot_int(row0, col0, 0) == 0);
            assert(dot_int(row0, col0, 1) == row0[0] * col0[0]);
            assert(dot_int(row0, col0, 2) == row0[0] * col0[0] + row0[1] * col0[1]);
            assert(dot_int(row0, col0, 3) == row0[0] * col0[0] + row0[1] * col0[1] + row0[2]
                * col0[2]);
            assert(forall|k: int| 0 <= k <= 3 ==> fits_i32(dot_int(row0, col0, k)));
        }
        let r = self.row(0).dot(adj.column(0));
        assert(r == det3_int(self@));
        r
    }
}

/// The defining identity of the adjugate for 3-by-3 matrices:
/// `M * adj(M) == det(M) * I`.
pub proof fn lemma_mul_adjoint_3(m: Matrix<3, 3>)
    ensures
        mat_mul_int(m@, adj3_int(m@), 3) == mat_scale_int(identity_int(3), det3_int(m@)),
{
    reveal_with_fuel(dot_int, 4);
    let a: int = m@[0][0];
    let b: int = m@[1][0];
    let c: int = m@[2][0];
    let d: int = m@[0][1];
    let e: int = m@[1][1];
    let f: int = m@[2][1];
    let g: int = m@[0][2];
    let h: int = m@[1][2];
    let k: int = m@[2][2];
    let det: int = det3_int(m@);
    let p = mat_mul_int(m@, adj3_int(m@), 3);
    assert(row_int(m@, 0) =~= seq![a, b, c]);
    assert(row_int(m@, 1) =~= seq![d, e, f]);
    assert(row_int(m@, 2) =~= seq![g, h, k]);
    assert(p[0][0] == a * (e * k - f * h) + b * (f * g - d * k) + c * (d * h - e * g));
    assert(p[0][1] == d * (e * k - f * h) + e * (f * g - d * k) + f * (d * h - e * g));
    assert(p[0][2] == g * (e * k - f * h) + h * (f * g - d * k) + k * (d * h - e * g));
    assert(p[1][0] == a * (c * h - b * k) + b * (a * k - c * g) + c * (b * g - a * h));
    assert(p[1][1] == d * (c * h - b * k) + e * (a * k - c * g) + f * (b * g - a * h));
    assert(p[1][2] == g * (c * h - b * k) + h * (a * k - c * g) + k * (b * g - a * h));
    assert(p[2][0] == a * (b * f - c * e) + b * (c * d - a * f) + c * (a * e - b * d));
    assert(p[2][1] == d * (b * f - c * e) + e * (c * d - a * f) + f * (a * e - b * d));
    assert(p[2][2] == g * (b * f - c * e) + h * (c * d - a * f) + k * (a * e - b * d));
    assert(d * (e * k - f * h) + e * (f * g - d * k) + f * (d * h - e * g) == 0)
        by (nonlinear_arith);
    assert(g * (e * k - f * h) + h * (f * g - d * k) + k * (d * h - e * g) == 0)
        by (nonlinear_arith);
    assert(a * (c * h - b * k) + b * (a * k - c * g) + c * (b * g - a * h) == 0)
        by (nonlinear_arith);
    assert(g * (c * h - b * k) + h * (a * k - c * g) + k * (b * g - a * h) == 0)
        by (nonlinear_arith);
    assert(a * (b * f - c * e) + b * (c * d - a * f) + c * (a * e - b * d) == 0)
        by (nonlinear_arith);
    assert(d * (b * f - c * e) + e * (c * d - a * f) + f * (a * e - b * d) == 0)
        by (nonlinear_arith);
    lemma_mul_dist(a, e * k, f * h);
    lemma_mul_dist(b, f * g, d * k);
    lemma_mul_dist(c, d * h, e * g);
    lemma_mul_dist(d, c * h, b * k);
    lemma_mul_dist(e, a * k, c * g);
    lemma_mul_dist(f, b * g, a * h);
    lemma_mul_dist(g, b * f, c * e);
    lemma_mul_dist(h, c * d, a * f);
    lemma_mul_dist(k, a * e, b * d);
    lemma_mul3(c, d, h);
    lemma_mul3(b, d, k);
    lemma_mul3(a, e, k);
    lemma_mul3(c, e, g);
    lemma_mul3(b, f, g);
    lemma_mul3(a, f, h);
    assert(d * (c * h - b * k) + e * (a * k - c * g) + f * (b * g - a * h) == a * (e * k - f * h)
        + b * (f * g - d * k) + c * (d * h - e * g));
    assert(g * (b * f - c * e) + h * (c * d - a * f) + k * (a * e - b * d) == a * (e * k - f * h)
        + b * (f * g - d * k) + c * (d * h - e * g));
    assert(mat_mul_int(m@, adj3_int(m@), 3) =~~= mat_scale_int(identity_int(3), det3_int(m@)));
}

/// One entry of the associativity law: row `r`, column `j` of `(A B) C` and
/// of `A (B C)` agree. `a`, `b` and `cc` are column sequences; `rows` is the
/// row count of `a`.
proof fn lemma_mat_mul_assoc_entry(
    a: Seq<Seq<int>>,
    b: Seq<Seq<int>>,
    cc: Seq<Seq<int>>,
    rows: nat,
    r: int,
    j: int,
)
    requires
        0 <= r < rows,
        0 <= j < cc.len(),
        forall|s: int| 0 <= s < cc.len() ==> (#[trigger] cc[s]).len() == b.len(),
        forall|s: int| 0 <= s < b.len() ==> (#[trigger] b[s]).len() == a.len(),
    ensures
        dot_int(row_int(mat_mul_int(a, b, rows), r), cc[j], b.len() as int) == dot_int(
            row_int(a, r),
            mat_mul_int(b, cc, a.len() as nat)[j],
            a.len() as int,
        ),
{
    let na = a.len() as int;
    let nb = b.len() as int;
    let rowa = row_int(a, r);
    let ab = mat_mul_int(a, b, rows);
    let bc = mat_mul_int(b, cc, a.len() as nat);
    let g = |s: int, k: int| (rowa[k] * b[s][k]) * cc[j][s];
    let fs = |s: int| sum_int(|k: int| g(s, k), na);
    let fk = |k: int| sum_int(|s: int| g(s, k), nb);

    lemma_dot_int_as_sum(row_int(ab, r), cc[j], |s: int| row_int(ab, r)[s] * cc[j][s], nb);
    assert forall|s: int| 0 <= s < nb implies row_int(ab, r)[s] * cc[j][s] == #[trigger] fs(s) by {
        assert(row_int(ab, r)[s] == dot_int(rowa, b[s], na));
        lemma_dot_int_as_sum(rowa, b[s], |k: int| rowa[k] * b[s][k], na);
        assert forall|kk: int| 0 <= kk < na implies #[trigger] g(s, kk) == cc[j][s] * (rowa[kk]
            * b[s][kk]) by {
            lemma_mul_comm(rowa[kk] * b[s][kk], cc[j][s]);
        }
        lemma_sum_scale(|k: int| rowa[k] * b[s][k], |k: int| g(s, k), cc[j][s], na);
        lemma_mul_comm(cc[j][s], sum_int(|k: int| rowa[k] * b[s][k], na));
        assert(sum_int(|k: int| g(s, k), na) == dot_int(rowa, b[s], na) * cc[j][s]);
    }
    lemma_sum_congruence(|s: int| row_int(ab, r)[s] * cc[j][s], fs, nb);

    lemma_dot_int_as_sum(rowa, bc[j], |k: int| rowa[k] * bc[j][k], na);
    assert forall|k: int| 0 <= k < na implies rowa[k] * bc[j][k] == #[trigger] fk(k) by {
        assert(bc[j][k] == dot_int(row_int(b, k), cc[j], nb));
        lemma_dot_int_as_sum(row_int(b, k), cc[j], |s: int| b[s][k] * cc[j][s], nb);
        assert forall|ss: int| 0 <= ss < nb implies #[trigger] g(ss, k) == rowa[k] * (b[ss][k]
            * cc[j][ss]) by {
            lemma_mul3(rowa[k], b[ss][k], cc[j][ss]);
        }
        lemma_sum_scale(|s: int| b[s][k] * cc[j][s], |s: int| g(s, k), rowa[k], nb);
        assert(sum_int(|s: int| g(s, k), nb) == rowa[k] * sum_int(|s: int| b[s][k] * cc[j][s], nb));
    }
    lemma_sum_congruence(|k: int| rowa[k] * bc[j][k], fk, na);

    lemma_sum_swap(g, fs, fk, nb, na);
}

/// Matrix multiplication is associative: `(A B) C == A (B C)`.
pub proof fn lemma_mat_mul_assoc<const R: usize, const C: usize, const K: usize, const L: usize>(
    a: Matrix<R, C>,
    b: Matrix<C, K>,
    c: Matrix<K, L>,
)
    ensures
        mat_mul_int(mat_mul_int(a@, b@, R as nat), c@, R as nat) == mat_mul_int(
            a@,
            mat_mul_int(b@, c@, C as nat),
            R as nat,
        ),
{
    let ab = mat_mul_int(a@, b@, R as nat);
    let bc = mat_mul_int(b@, c@, C as nat);
    let lhs = mat_mul_int(ab, c@, R as nat);
    let rhs = mat_mul_int(a@, bc, R as nat);
    assert forall|j: int, r: int| 0 <= j < L && 0 <= r < R implies lhs[j][r] == rhs[j][r] by {
        lemma_mat_mul_assoc_entry(a@, b@, c@, R as nat, r, j);
    }
    assert(lhs =~~= rhs);
}

} // verus!
