//! Matrices of fixed shape, held as rows of vectors.

use crate::algebra::{transposed, zeros};
use crate::element::Element;
use crate::math_vector::Indexed;
use crate::vector::small_vector::SmallVector;
use crate::vector::Vector;
use std::ops::{Index, IndexMut};
use vstd::prelude::*;

pub mod into_rows;
pub mod math;

use into_rows::IntoRows;

verus! {

/// A matrix of `M` rows and `N` columns.
///
/// The rows are vectors of `N` elements each, of either storage. A matrix is
/// well-formed when it holds exactly `M` of them. Two matrices are equal when
/// they hold the same elements at every position.
#[derive(Debug)]
pub struct Matrix<T, const M: usize, const N: usize> {
    pub inner: Vec<Vector<T, N>>,
}

impl<T, const M: usize, const N: usize> View for Matrix<T, M, N> {
    type V = Seq<Seq<T>>;

    open spec fn view(&self) -> Seq<Seq<T>> {
        Seq::new(self.inner@.len(), |r: int| self.inner@[r]@)
    }
}

impl<T, const M: usize, const N: usize> Matrix<T, M, N> {
    /// The matrix whose rows hold the items of the rows of `data`, in order.
    pub fn new(data: impl IntoRows<T, M, N>) -> (r: Self)
        requires
            data.rows().len() == M,
            forall|i: int| 0 <= i < M ==> (#[trigger] data.rows()[i]).len() == N,
        ensures
            r@ == data.rows(),
    {
        let r = Matrix { inner: data.into_rows() };
        assert(r@ =~= data.rows());
        r
    }
}

impl<T: Element, const M: usize, const N: usize> Matrix<T, M, N> {
    /// The integers the matrix holds, row by row.
    pub open spec fn values(&self) -> Seq<Seq<int>> {
        Seq::new(self.inner@.len(), |r: int| self.inner@[r].values())
    }

    /// Exactly `M` rows, each of exactly `N` elements.
    pub open spec fn wf(&self) -> bool {
        &&& self.inner@.len() == M
        &&& forall|r: int| 0 <= r < M ==> (#[trigger] self.inner@[r]).wf()
    }

    /// The transpose: entry `[c][r]` of the result is entry `[r][c]` of `self`.
    pub fn transpose(&self) -> (r: Matrix<T, N, M>)
        requires
            self.wf(),
        ensures
            r.wf(),
            r.values() == transposed(self.values(), N as nat),
    {
        let ghost target = transposed(self.values(), N as nat);
        let mut rows: Vec<Vector<T, M>> = Vec::with_capacity(N);
        let mut col: usize = 0;
        while col < N
            invariant
                col <= N,
                self.wf(),
                target == transposed(self.values(), N as nat),
                rows@.len() == col,
                forall|c: int|
                    0 <= c < col ==> (#[trigger] rows@[c]).wf() && rows@[c].values() == target[c],
            decreases N - col,
        {
            let mut column_data: [T; M] = [T::zero(); M];
            let mut row: usize = 0;
            while row < M
                invariant
                    row <= M,
                    col < N,
                    self.wf(),
                    target == transposed(self.values(), N as nat),
                    forall|k: int|
                        0 <= k < row ==> (#[trigger] column_data@[k]).value() == target[col as int][k],
                decreases M - row,
            {
                proof {
                    self.inner@[row as int].lemma_wf();
                }
                column_data[row] = self.inner[row].at(col);
                row += 1;
            }
            let small_vector = SmallVector { data: column_data };
            assert(small_vector.values() =~= target[col as int]);
            rows.push(Vector::Small(small_vector));
            col += 1;
        }
        let r = Matrix { inner: rows };
        assert(r.values() =~= target);
        r
    }
}

impl<T: Element, const M: usize, const N: usize> Default for Matrix<T, M, N> {
    /// The zero matrix.
    fn default() -> (r: Self)
        ensures
            r.wf(),
            r.values() == Seq::new(M as nat, |i: int| zeros(N as nat)),
    {
        let mut rows: Vec<Vector<T, N>> = Vec::with_capacity(M);
        let mut row: usize = 0;
        while row < M
            invariant
                row <= M,
                rows@.len() == row,
                forall|i: int|
                    0 <= i < row ==> (#[trigger] rows@[i]).wf() && rows@[i].values() == zeros(
                        N as nat,
                    ),
            decreases M - row,
        {
            rows.push(Vector::default());
            row += 1;
        }
        let r = Matrix { inner: rows };
        assert(r.values() =~= Seq::new(M as nat, |i: int| zeros(N as nat)));
        r
    }
}

impl<T, const M: usize, const N: usize> Index<usize> for Matrix<T, M, N> {
    type Output = Vector<T, N>;

    fn index(&self, row: usize) -> (r: &Vector<T, N>)
        ensures
            *r == self.inner@[row as int],
    {
        &self.inner[row]
    }
}

impl<T, const M: usize, const N: usize> vstd::std_specs::core::IndexSpecImpl<usize> for Matrix<T, M, N> {
    open spec fn index_req(&self, row: &usize) -> bool {
        *row < self.inner@.len()
    }
}

impl<T, const M: usize, const N: usize> IndexMut<usize> for Matrix<T, M, N> {
    fn index_mut(&mut self, row: usize) -> (r: &mut Vector<T, N>)
        requires
            row < old(self).inner@.len(),
        ensures
            *r == old(self).inner@[row as int],
            final(self).inner@ == old(self).inner@.update(row as int, *final(r)),
    {
        &mut self.inner[row]
    }
}

impl<T: Element, const M: usize, const N: usize> PartialEq for Matrix<T, M, N> {
    /// Equality at every position, whatever the storage of the rows.
    fn eq(&self, other: &Self) -> (r: bool) {
        if self.inner.len() != other.inner.len() {
            assert(self@.len() != other@.len());
            return false;
        }
        let len = self.inner.len();
        let mut row: usize = 0;
        while row < len
            invariant
                row <= len,
                len == self.inner@.len(),
                len == other.inner@.len(),
                forall|i: int| 0 <= i < row ==> self.inner@[i]@ == other.inner@[i]@,
            decreases len - row,
        {
            if self.inner[row] != other.inner[row] {
                assert(self@[row as int] != other@[row as int]);
                return false;
            }
            row += 1;
        }
        assert(self@ =~= other@);
        true
    }
}

impl<T: Element, const M: usize, const N: usize> vstd::std_specs::cmp::PartialEqSpecImpl for Matrix<T, M, N> {
    open spec fn obeys_eq_spec() -> bool {
        true
    }

    open spec fn eq_spec(&self, other: &Self) -> bool {
        self@ == other@
    }
}

} // verus!
