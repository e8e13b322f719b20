//! Matrix arithmetic: product, sum and difference.

use crate::algebra::{
    accumulates_in, column, difference_of, dot, entry_computable, lemma_product_by_transposed_rows,
    lemma_total_all, lemma_total_step,
    matrix_difference, matrix_product, matrix_sum, product_computable, product_fits_isize, product_of,
    sum_of, total, transposed, uses_transpose, TRANSPOSE_THRESHOLD,
};
use crate::element::{all_representable, all_rows_representable, Element};
use crate::math_vector::{Indexed, MathVector};
use crate::matrix::Matrix;
use crate::vector::small_vector::SmallVector;
use crate::vector::{lemma_vector_values_injective, Vector};
use vstd::prelude::*;

verus! {

impl<T: Element, const M: usize, const N: usize> Matrix<T, M, N> {
    /// The matrix product `self * matrix2`.
    ///
    /// Small products are accumulated entry by entry; from
    /// `TRANSPOSE_THRESHOLD` entries on, the right operand is transposed once
    /// and every entry is a dot product of two rows. Both ways give the same
    /// matrix.
    pub fn mult<const P: usize>(&self, matrix2: &Matrix<T, N, P>) -> (r: Matrix<T, M, P>)
        requires
            self.wf(),
            matrix2.wf(),
            product_computable::<T>(self.values(), matrix2.values(), P as nat),
            uses_transpose(M as nat, P as nat) ==> product_fits_isize(
                self.values(),
                matrix2.values(),
                P as nat,
            ),
        ensures
            r.wf(),
            r.values() == matrix_product(self.values(), matrix2.values(), P as nat),
    {
        let direct = match P.checked_mul(M) {
            Some(entries) => entries < TRANSPOSE_THRESHOLD,
            None => false,
        };
        proof {
            assert(P * M == M * P) by (nonlinear_arith);
        }
        if direct {
            self.mult_direct(matrix2)
        } else {
            self.mult_transposed(matrix2)
        }
    }

    /// The matrix product, every entry accumulated in `T` over the row of
    /// `self` and the column of `matrix2`.
    pub fn mult_direct<const P: usize>(&self, matrix2: &Matrix<T, N, P>) -> (r: Matrix<T, M, P>)
        requires
            self.wf(),
            matrix2.wf(),
            product_computable::<T>(self.values(), matrix2.values(), P as nat),
        ensures
            r.wf(),
            r.values() == matrix_product(self.values(), matrix2.values(), P as nat),
    {
        let ghost a = self.values();
        let ghost b = matrix2.values();
        let ghost target = matrix_product(a, b, P as nat);
        let mut rows: Vec<Vector<T, P>> = Vec::with_capacity(M);
        let mut row: usize = 0;
        while row < M
            invariant
                row <= M,
                self.wf(),
                matrix2.wf(),
                a == self.values(),
                b == matrix2.values(),
                target == matrix_product(a, b, P as nat),
                product_computable::<T>(a, b, P as nat),
                rows@.len() == row,
                forall|i: int|
                    0 <= i < row ==> (#[trigger] rows@[i]).wf() && rows@[i].values() == target[i],
            decreases M - row,
        {
            let mut row_data: [T; P] = [T::zero(); P];
            let mut col: usize = 0;
            while col < P
                invariant
                    col <= P,
                    row < M,
                    self.wf(),
                    matrix2.wf(),
                    a == self.values(),
                    b == matrix2.values(),
                    target == matrix_product(a, b, P as nat),
                    product_computable::<T>(a, b, P as nat),
                    forall|c: int|
                        0 <= c < col ==> (#[trigger] row_data@[c]).value() == target[row as int][c],
                decreases P - col,
            {
                let ghost terms = product_of(a[row as int], column(b, col as int));
                proof {
                    self.inner@[row as int].lemma_wf();
                    assert(entry_computable::<T>(a[row as int], column(b, col as int)));
                    assert(terms.take(0) =~= Seq::<int>::empty());
                }
                let mut acc: T = T::zero();
                let mut index: usize = 0;
                while index < N
                    invariant
                        index <= N,
                        row < M,
                        col < P,
                        self.wf(),
                        matrix2.wf(),
                        a == self.values(),
                        b == matrix2.values(),
                        a[row as int].len() == N,
                        terms == product_of(a[row as int], column(b, col as int)),
                        all_representable::<T>(terms),
                        accumulates_in::<T>(terms),
                        acc.value() == total(terms.take(index as int)),
                    decreases N - index,
                {
                    proof {
                        matrix2.inner@[index as int].lemma_wf();
                        lemma_total_step(terms, index as int);
                        assert(T::representable(terms[index as int]));
                        assert(T::representable(total(terms.take(index + 1))));
                    }
                    acc = acc.plus(self.inner[row].at(index).times(matrix2.inner[index].at(col)));
                    index += 1;
                }
                proof {
                    lemma_total_all(terms);
                }
                row_data[col] = acc;
                col += 1;
            }
            let small_vector = SmallVector { data: row_data };
            assert(small_vector.values() =~= target[row as int]);
            rows.push(Vector::Small(small_vector));
            row += 1;
        }
        let r = Matrix { inner: rows };
        assert(r.values() =~= target);
        r
    }

    /// The matrix product, every entry the dot product of a row of `self`
    /// with a row of the transpose of `matrix2`.
    pub fn mult_transposed<const P: usize>(&self, matrix2: &Matrix<T, N, P>) -> (r: Matrix<T, M, P>)
        requires
            self.wf(),
            matrix2.wf(),
            product_computable::<T>(self.values(), matrix2.values(), P as nat),
            product_fits_isize(self.values(), matrix2.values(), P as nat),
        ensures
            r.wf(),
            r.values() == matrix_product(self.values(), matrix2.values(), P as nat),
    {
        let ghost a = self.values();
        let ghost b = matrix2.values();
        let ghost target = matrix_product(a, b, P as nat);
        let columns = matrix2.transpose();
        let mut rows: Vec<Vector<T, P>> = Vec::with_capacity(M);
        let mut row: usize = 0;
        while row < M
            invariant
                row <= M,
                self.wf(),
                columns.wf(),
                a == self.values(),
                columns.values() == transposed(b, P as nat),
                target == matrix_product(a, b, P as nat),
                product_computable::<T>(a, b, P as nat),
                product_fits_isize(a, b, P as nat),
                rows@.len() == row,
                forall|i: int|
                    0 <= i < row ==> (#[trigger] rows@[i]).wf() && rows@[i].values() == target[i],
            decreases M - row,
        {
            let mut row_data: [T; P] = [T::zero(); P];
            let mut col: usize = 0;
            while col < P
                invariant
                    col <= P,
                    row < M,
                    self.wf(),
                    columns.wf(),
                    a == self.values(),
                    columns.values() == transposed(b, P as nat),
                    target == matrix_product(a, b, P as nat),
                    product_computable::<T>(a, b, P as nat),
                    product_fits_isize(a, b, P as nat),
                    forall|c: int|
                        0 <= c < col ==> (#[trigger] row_data@[c]).value() == target[row as int][c],
                decreases P - col,
            {
                let ghost terms = product_of(a[row as int], column(b, col as int));
                proof {
                    assert(entry_computable::<T>(a[row as int], column(b, col as int)));
                    assert(isize::MIN <= dot(a[row as int], column(b, col as int)) <= isize::MAX);
                    lemma_product_by_transposed_rows(a, b, P as nat, row as int, col as int);
                    lemma_total_all(terms);
                    assert(T::representable(total(terms.take(terms.len() as int))));
                }
                let entry = self.inner[row].dot(&columns.inner[col]);
                row_data[col] = T::from_isize(entry).unwrap();
                col += 1;
            }
            let small_vector = SmallVector { data: row_data };
            assert(small_vector.values() =~= target[row as int]);
            rows.push(Vector::Small(small_vector));
            row += 1;
        }
        let r = Matrix { inner: rows };
        assert(r.values() =~= target);
        r
    }

    /// The entrywise sum `self + matrix2`.
    pub fn add(&self, matrix2: &Matrix<T, M, N>) -> (r: Matrix<T, M, N>)
        requires
            self.wf(),
            matrix2.wf(),
            all_rows_representable::<T>(matrix_sum(self.values(), matrix2.values())),
        ensures
            r.wf(),
            r.values() == matrix_sum(self.values(), matrix2.values()),
    {
        let ghost target = matrix_sum(self.values(), matrix2.values());
        let mut rows: Vec<Vector<T, N>> = Vec::with_capacity(M);
        let mut row: usize = 0;
        while row < M
            invariant
                row <= M,
                self.wf(),
                matrix2.wf(),
                target == matrix_sum(self.values(), matrix2.values()),
                all_rows_representable::<T>(target),
                rows@.len() == row,
                forall|i: int|
                    0 <= i < row ==> (#[trigger] rows@[i]).wf() && rows@[i].values() == target[i],
            decreases M - row,
        {
            proof {
                self.inner@[row as int].lemma_wf();
                matrix2.inner@[row as int].lemma_wf();
                assert(all_representable::<T>(target[row as int]));
            }
            let mut row_data: [T; N] = [T::zero(); N];
            let mut col: usize = 0;
            while col < N
                invariant
                    col <= N,
                    row < M,
                    self.wf(),
                    matrix2.wf(),
                    self.inner@[row as int].values().len() == N,
                    matrix2.inner@[row as int].values().len() == N,
                    target[row as int] == sum_of(
                        self.inner@[row as int].values(),
                        matrix2.inner@[row as int].values(),
                    ),
                    all_representable::<T>(target[row as int]),
                    forall|c: int|
                        0 <= c < col ==> (#[trigger] row_data@[c]).value() == target[row as int][c],
                decreases N - col,
            {
                assert(T::representable(target[row as int][col as int]));
                row_data[col] = self.inner[row].at(col).plus(matrix2.inner[row].at(col));
                col += 1;
            }
            let small_vector = SmallVector { data: row_data };
            assert(small_vector.values() =~= target[row as int]);
            rows.push(Vector::Small(small_vector));
            row += 1;
        }
        let r = Matrix { inner: rows };
        assert(r.values() =~= target);
        r
    }

    /// The entrywise difference `self - matrix2`.
    pub fn subtract(&self, matrix2: &Matrix<T, M, N>) -> (r: Matrix<T, M, N>)
        requires
            self.wf(),
            matrix2.wf(),
            all_rows_representable::<T>(matrix_difference(self.values(), matrix2.values())),
        ensures
            r.wf(),
            r.values() == matrix_difference(self.values(), matrix2.values()),
    {
        let ghost target = matrix_difference(self.values(), matrix2.values());
        let mut rows: Vec<Vector<T, N>> = Vec::with_capacity(M);
        let mut row: usize = 0;
        while row < M
            invariant
                row <= M,
                self.wf(),
                matrix2.wf(),
                target == matrix_difference(self.values(), matrix2.values()),
                all_rows_representable::<T>(target),
                rows@.len() == row,
                forall|i: int|
                    0 <= i < row ==> (#[trigger] rows@[i]).wf() && rows@[i].values() == target[i],
            decreases M - row,
        {
            proof {
                self.inner@[row as int].lemma_wf();
                matrix2.inner@[row as int].lemma_wf();
                assert(all_representable::<T>(target[row as int]));
            }
            let mut row_data: [T; N] = [T::zero(); N];
            let mut col: usize = 0;
            while col < N
                invariant
                    col <= N,
                    row < M,
                    self.wf(),
                    matrix2.wf(),
                    self.inner@[row as int].values().len() == N,
                    matrix2.inner@[row as int].values().len() == N,
                    target[row as int] == difference_of(
                        self.inner@[row as int].values(),
                        matrix2.inner@[row as int].values(),
                    ),
                    all_representable::<T>(target[row as int]),
                    forall|c: int|
                        0 <= c < col ==> (#[trigger] row_data@[c]).value() == target[row as int][c],
                decreases N - col,
            {
                assert(T::representable(target[row as int][col as int]));
                row_data[col] = self.inner[row].at(col).minus(matrix2.inner[row].at(col));
                col += 1;
            }
            let small_vector = SmallVector { data: row_data };
            assert(small_vector.values() =~= target[row as int]);
            rows.push(Vector::Small(small_vector));
            row += 1;
        }
        let r = Matrix { inner: rows };
        assert(r.values() =~= target);
        r
    }
}

/// The two ways of computing a product agree: whatever the direct and the
/// transposed computation return for the same operands, the two matrices hold
/// the same elements at every position.
pub proof fn law_regimes_agree<T: Element, const M: usize, const N: usize, const P: usize>(
    a: Matrix<T, M, N>,
    b: Matrix<T, N, P>,
    direct: Matrix<T, M, P>,
    through_transpose: Matrix<T, M, P>,
)
    requires
        call_ensures(Matrix::<T, M, N>::mult_direct::<P>, (&a, &b), direct),
        call_ensures(Matrix::<T, M, N>::mult_transposed::<P>, (&a, &b), through_transpose),
    ensures
        direct.values() == through_transpose.values(),
        direct@ == through_transpose@,
{
    lemma_matrix_values_injective(direct, through_transpose);
}

/// Well-formed matrices that stand for the same integers hold the same
/// elements.
pub proof fn lemma_matrix_values_injective<T: Element, const M: usize, const N: usize>(
    a: Matrix<T, M, N>,
    b: Matrix<T, M, N>,
)
    requires
        a.wf(),
        b.wf(),
        a.values() == b.values(),
    ensures
        a@ == b@,
{
    assert forall|r: int| 0 <= r < M implies a@[r] == b@[r] by {
        assert(a.values()[r] == b.values()[r]);
        lemma_vector_values_injective(a.inner@[r], b.inner@[r]);
    }
    assert(a@ =~= b@);
}

} // verus!
