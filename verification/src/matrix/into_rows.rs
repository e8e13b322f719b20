//! What a matrix can be built from: a sequence of sources of one row each.

use crate::vector::large_vector::LargeVector;
use crate::vector::small_vector::SmallVector;
use crate::vector::Vector;
use vstd::prelude::*;

verus! {

/// A source of the `N` items of one row.
pub trait IntoVector<T, const N: usize>: Sized {
    /// The items the source holds, in order.
    spec fn items(&self) -> Seq<T>;

    /// The items as a vector.
    fn into_vector(self) -> (r: Vector<T, N>)
        requires
            self.items().len() == N,
        ensures
            r@ == self.items(),
    ;
}

impl<T: Copy, const N: usize> IntoVector<T, N> for [T; N] {
    open spec fn items(&self) -> Seq<T> {
        self@
    }

    fn into_vector(self) -> (r: Vector<T, N>) {
        Vector::new(self)
    }
}

impl<T, const N: usize> IntoVector<T, N> for Vec<T> {
    open spec fn items(&self) -> Seq<T> {
        self@
    }

    fn into_vector(self) -> (r: Vector<T, N>) {
        Vector::new(self)
    }
}

impl<T, const N: usize> IntoVector<T, N> for Vector<T, N> {
    open spec fn items(&self) -> Seq<T> {
        self@
    }

    fn into_vector(self) -> (r: Vector<T, N>) {
        self
    }
}

impl<T, const N: usize> IntoVector<T, N> for SmallVector<T, N> {
    open spec fn items(&self) -> Seq<T> {
        self@
    }

    fn into_vector(self) -> (r: Vector<T, N>) {
        Vector::Small(self)
    }
}

impl<T, const N: usize> IntoVector<T, N> for LargeVector<T, N> {
    open spec fn items(&self) -> Seq<T> {
        self@
    }

    fn into_vector(self) -> (r: Vector<T, N>) {
        Vector::Large(self)
    }
}

/// A source of the `M` rows of a matrix of `N` columns.
pub trait IntoRows<T, const M: usize, const N: usize>: Sized {
    /// The items the source holds, row by row.
    spec fn rows(&self) -> Seq<Seq<T>>;

    /// The rows as vectors, in order.
    fn into_rows(self) -> (r: Vec<Vector<T, N>>)
        requires
            self.rows().len() == M,
            forall|i: int| 0 <= i < M ==> (#[trigger] self.rows()[i]).len() == N,
        ensures
            r@.len() == M,
            forall|i: int| 0 <= i < M ==> (#[trigger] r@[i])@ == self.rows()[i],
    ;
}

/// The rows of `sources` as vectors, in order.
fn collect_rows<T, const N: usize, R: IntoVector<T, N>>(sources: Vec<R>) -> (r: Vec<Vector<T, N>>)
    requires
        forall|i: int| 0 <= i < sources@.len() ==> (#[trigger] sources@[i]).items().len() == N,
    ensures
        r@.len() == sources@.len(),
        forall|i: int| 0 <= i < sources@.len() ==> (#[trigger] r@[i])@ == sources@[i].items(),
{
    let mut rest = sources;
    let mut reversed: Vec<Vector<T, N>> = Vec::with_capacity(rest.len());
    while rest.len() > 0
        invariant
            rest@.len() <= sources@.len(),
            rest@ == sources@.take(rest@.len() as int),
            forall|i: int| 0 <= i < sources@.len() ==> (#[trigger] sources@[i]).items().len() == N,
            reversed@.len() == sources@.len() - rest@.len(),
            forall|i: int|
                0 <= i < reversed@.len() ==> (#[trigger] reversed@[i])@ == sources@[sources@.len() - 1
                    - i].items(),
        decreases rest@.len(),
    {
        let ghost before = rest@;
        let source = rest.pop().unwrap();
        assert(source == sources@[before.len() - 1]);
        assert(rest@ =~= sources@.take(rest@.len() as int));
        reversed.push(source.into_vector());
    }
    let mut rows: Vec<Vector<T, N>> = Vec::with_capacity(reversed.len());
    let ghost total = reversed@.len();
    let ghost stack = reversed@;
    while reversed.len() > 0
        invariant
            total == sources@.len(),
            stack.len() == total,
            forall|i: int| 0 <= i < total ==> (#[trigger] stack[i])@ == sources@[total - 1 - i].items(),
            reversed@.len() <= total,
            reversed@ == stack.take(reversed@.len() as int),
            rows@.len() == total - reversed@.len(),
            forall|i: int| 0 <= i < rows@.len() ==> (#[trigger] rows@[i])@ == sources@[i].items(),
        decreases reversed@.len(),
    {
        let ghost before = reversed@;
        let row = reversed.pop().unwrap();
        assert(row == stack[before.len() - 1]);
        assert(reversed@ =~= stack.take(reversed@.len() as int));
        rows.push(row);
    }
    rows
}

/// std's `From<[R; M]>` for `Vec<R>`: the items of the array, moved into a
/// vector in their order.
#[verifier::external_body]
fn array_into_vec<R, const M: usize>(array: [R; M]) -> (r: Vec<R>)
    ensures
        r@ == array@,
{
    Vec::from(array)
}

impl<T, const M: usize, const N: usize, R: IntoVector<T, N>> IntoRows<T, M, N> for [R; M] {
    open spec fn rows(&self) -> Seq<Seq<T>> {
        Seq::new(M as nat, |i: int| self@[i].items())
    }

    fn into_rows(self) -> (r: Vec<Vector<T, N>>) {
        let ghost rows = <Self as IntoRows<T, M, N>>::rows(&self);
        let sources = array_into_vec(self);
        assert forall|i: int| 0 <= i < sources@.len() implies (#[trigger] sources@[i]).items().len()
            == N by {
            assert(rows[i].len() == N);
        }
        collect_rows(sources)
    }
}

impl<T, const M: usize, const N: usize, R: IntoVector<T, N>> IntoRows<T, M, N> for Vec<R> {
    open spec fn rows(&self) -> Seq<Seq<T>> {
        Seq::new(self@.len(), |i: int| self@[i].items())
    }

    fn into_rows(self) -> (r: Vec<Vector<T, N>>) {
        let ghost rows = <Self as IntoRows<T, M, N>>::rows(&self);
        assert forall|i: int| 0 <= i < self@.len() implies (#[trigger] self@[i]).items().len()
            == N by {
            assert(rows[i].len() == N);
        }
        collect_rows(self)
    }
}

} // verus!
