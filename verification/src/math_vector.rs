//! The operations every vector offers, whatever its storage.

use crate::algebra::{
    accumulates_in, cross, cross_terms, difference_of, dot, is_floor_sqrt, lemma_cross_anticommutes,
    lemma_dot_commutes, lemma_scaled_by_one, lemma_scaled_by_zero, lemma_squares_total_nonnegative,
    lemma_sum_commutes, lemma_sum_then_difference, lemma_total_all, lemma_total_step, outer,
    product_of, scaled, sum_of, total, zeros,
};
use crate::element::{all_representable, all_rows_representable, Element};
use crate::matrix::Matrix;
use crate::vector::small_vector::SmallVector;
use crate::vector::Vector;
use vstd::prelude::*;

verus! {

/// Read access by position to exactly `N` elements.
///
/// This is what an operation needs of its right-hand operand. Every vector of
/// the crate has it, and so does a reference to one, so an operand can be
/// handed over or lent.
pub trait Indexed<T: Element, const N: usize> {
    /// The integers the elements stand for, in order.
    spec fn values(&self) -> Seq<int>;

    /// The value holds exactly `N` elements.
    spec fn wf(&self) -> bool;

    /// A well-formed value stands for `N` integers that `T` can store.
    proof fn lemma_wf(&self)
        requires
            self.wf(),
        ensures
            self.values().len() == N,
            all_representable::<T>(self.values()),
    ;

    /// The element at position `idx`.
    fn at(&self, idx: usize) -> (r: T)
        requires
            self.wf(),
            idx < N,
        ensures
            r.value() == self.values()[idx as int],
    ;
}

impl<T: Element, const N: usize, V: Indexed<T, N>> Indexed<T, N> for &V {
    open spec fn values(&self) -> Seq<int> {
        (**self).values()
    }

    open spec fn wf(&self) -> bool {
        (**self).wf()
    }

    proof fn lemma_wf(&self) {
        (**self).lemma_wf();
    }

    fn at(&self, idx: usize) -> (r: T) {
        (**self).at(idx)
    }
}

/// A mathematical vector of `N` elements of type `T`.
///
/// Each operation states the integers of its result over the integers of its
/// operands. The machine computes in `T`: every product, sum and difference it
/// forms on the way must be storable in `T`, and what is handed back as a wide
/// integer must fit there. Most operations come in two forms, one that
/// returns a new vector and one (`_mut`) that changes `self` in place to the
/// same result.
pub trait MathVector<T: Element, const N: usize>: Indexed<T, N> + Sized {
    /// Scalar multiplication.
    fn scalar(&self, scalar: isize) -> (r: Self)
        requires
            self.wf(),
            T::representable(scalar as int),
            all_representable::<T>(scaled(self.values(), scalar as int)),
        ensures
            r.wf(),
            r.values() == scaled(self.values(), scalar as int),
    ;

    /// Scalar multiplication in place.
    fn scalar_mut(&mut self, scalar: isize)
        requires
            old(self).wf(),
            T::representable(scalar as int),
            all_representable::<T>(scaled(old(self).values(), scalar as int)),
        ensures
            final(self).wf(),
            final(self).values() == scaled(old(self).values(), scalar as int),
    ;

    /// Dot product, accumulated in `T`.
    fn dot<R: Indexed<T, N>>(&self, rhs: R) -> (r: isize)
        requires
            self.wf(),
            rhs.wf(),
            all_representable::<T>(product_of(self.values(), rhs.values())),
            accumulates_in::<T>(product_of(self.values(), rhs.values())),
            isize::MIN <= dot(self.values(), rhs.values()) <= isize::MAX,
        ensures
            r == dot(self.values(), rhs.values()),
    ;

    /// Vector addition.
    fn add_vector<R: Indexed<T, N>>(&self, rhs: R) -> (r: Self)
        requires
            self.wf(),
            rhs.wf(),
            all_representable::<T>(sum_of(self.values(), rhs.values())),
        ensures
            r.wf(),
            r.values() == sum_of(self.values(), rhs.values()),
    ;

    /// Vector addition in place.
    fn add_vector_mut<R: Indexed<T, N>>(&mut self, rhs: R)
        requires
            old(self).wf(),
            rhs.wf(),
            all_representable::<T>(sum_of(old(self).values(), rhs.values())),
        ensures
            final(self).wf(),
            final(self).values() == sum_of(old(self).values(), rhs.values()),
    ;

    /// Vector subtraction.
    fn sub_vector<R: Indexed<T, N>>(&self, rhs: R) -> (r: Self)
        requires
            self.wf(),
            rhs.wf(),
            all_representable::<T>(difference_of(self.values(), rhs.values())),
        ensures
            r.wf(),
            r.values() == difference_of(self.values(), rhs.values()),
    ;

    /// Vector subtraction in place.
    fn sub_vector_mut<R: Indexed<T, N>>(&mut self, rhs: R)
        requires
            old(self).wf(),
            rhs.wf(),
            all_representable::<T>(difference_of(old(self).values(), rhs.values())),
        ensures
            final(self).wf(),
            final(self).values() == difference_of(old(self).values(), rhs.values()),
    ;

    /// Entrywise multiplication.
    fn entrywise<R: Indexed<T, N>>(&self, rhs: R) -> (r: Self)
        requires
            self.wf(),
            rhs.wf(),
            all_representable::<T>(product_of(self.values(), rhs.values())),
        ensures
            r.wf(),
            r.values() == product_of(self.values(), rhs.values()),
    ;

    /// Entrywise multiplication in place.
    fn entrywise_mut<R: Indexed<T, N>>(&mut self, rhs: R)
        requires
            old(self).wf(),
            rhs.wf(),
            all_representable::<T>(product_of(old(self).values(), rhs.values())),
        ensures
            final(self).wf(),
            final(self).values() == product_of(old(self).values(), rhs.values()),
    ;

    /// Cross product, defined for vectors of three elements only.
    fn cross<R: Indexed<T, N>>(&self, rhs: R) -> (r: Self)
        requires
            N == 3,
            self.wf(),
            rhs.wf(),
            all_representable::<T>(cross_terms(self.values(), rhs.values())),
            all_representable::<T>(cross(self.values(), rhs.values())),
        ensures
            r.wf(),
            r.values() == cross(self.values(), rhs.values()),
    ;

    /// Cross product in place, defined for vectors of three elements only.
    fn cross_mut<R: Indexed<T, N>>(&mut self, rhs: R)
        requires
            N == 3,
            old(self).wf(),
            rhs.wf(),
            all_representable::<T>(cross_terms(old(self).values(), rhs.values())),
            all_representable::<T>(cross(old(self).values(), rhs.values())),
        ensures
            final(self).wf(),
            final(self).values() == cross(old(self).values(), rhs.values()),
    ;

    /// Tensor (outer) product of the first `M` elements with `rhs`: a matrix
    /// of `M` rows whose entry `[i][j]` is `self[i] * rhs[j]`.
    fn tensor_prod<const M: usize, R: Indexed<T, N>>(&self, rhs: R) -> (r: Matrix<T, M, N>)
        requires
            M <= N,
            self.wf(),
            rhs.wf(),
            all_rows_representable::<T>(outer(self.values(), rhs.values(), M as nat)),
        ensures
            r.wf(),
            r.values() == outer(self.values(), rhs.values(), M as nat),
    ;

    /// Magnitude: the square root, rounded down, of the sum of the squares.
    fn magnitude(&self) -> (r: usize)
        requires
            self.wf(),
            all_representable::<T>(product_of(self.values(), self.values())),
            accumulates_in::<T>(product_of(self.values(), self.values())),
            dot(self.values(), self.values()) <= usize::MAX,
        ensures
            is_floor_sqrt(r as int, dot(self.values(), self.values())),
    ;

    /// Sum of all elements, accumulated in `T`.
    fn sum(&self) -> (r: isize)
        requires
            self.wf(),
            accumulates_in::<T>(self.values()),
            isize::MIN <= total(self.values()) <= isize::MAX,
        ensures
            r == total(self.values()),
    ;
}

/// num's `Roots::sqrt` for `usize`: the square root, rounded down.
#[verifier::external_body]
fn usize_sqrt(n: usize) -> (r: usize)
    ensures
        is_floor_sqrt(r as int, n as int),
{
    num::integer::Roots::sqrt(&n)
}

/// The dot product of any two indexable operands, accumulated in `T`.
pub fn dot_of<T: Element, const N: usize, L: Indexed<T, N>, R: Indexed<T, N>>(
    lhs: &L,
    rhs: &R,
) -> (r: isize)
    requires
        lhs.wf(),
        rhs.wf(),
        all_representable::<T>(product_of(lhs.values(), rhs.values())),
        accumulates_in::<T>(product_of(lhs.values(), rhs.values())),
        isize::MIN <= dot(lhs.values(), rhs.values()) <= isize::MAX,
    ensures
        r == dot(lhs.values(), rhs.values()),
{
    let ghost terms = product_of(lhs.values(), rhs.values());
    proof {
        lhs.lemma_wf();
        rhs.lemma_wf();
        assert(terms.take(0) =~= Seq::<int>::empty());
    }
    let mut acc: T = T::zero();
    let mut idx: usize = 0;
    while idx < N
        invariant
            idx <= N,
            lhs.wf(),
            rhs.wf(),
            lhs.values().len() == N,
            rhs.values().len() == N,
            terms == product_of(lhs.values(), rhs.values()),
            all_representable::<T>(terms),
            accumulates_in::<T>(terms),
            acc.value() == total(terms.take(idx as int)),
        decreases N - idx,
    {
        proof {
            lemma_total_step(terms, idx as int);
            assert(T::representable(terms[idx as int]));
            assert(T::representable(total(terms.take(idx + 1))));
        }
        acc = acc.plus(lhs.at(idx).times(rhs.at(idx)));
        idx += 1;
    }
    proof {
        lemma_total_all(terms);
    }
    acc.to_isize().unwrap()
}

/// The sum of the elements of any indexable operand, accumulated in `T`.
pub fn sum_of_elements<T: Element, const N: usize, V: Indexed<T, N>>(v: &V) -> (r: isize)
    requires
        v.wf(),
        accumulates_in::<T>(v.values()),
        isize::MIN <= total(v.values()) <= isize::MAX,
    ensures
        r == total(v.values()),
{
    let ghost terms = v.values();
    proof {
        v.lemma_wf();
        assert(terms.take(0) =~= Seq::<int>::empty());
    }
    let mut acc: T = T::zero();
    let mut idx: usize = 0;
    while idx < N
        invariant
            idx <= N,
            v.wf(),
            terms == v.values(),
            terms.len() == N,
            accumulates_in::<T>(terms),
            acc.value() == total(terms.take(idx as int)),
        decreases N - idx,
    {
        proof {
            lemma_total_step(terms, idx as int);
            assert(T::representable(total(terms.take(idx + 1))));
        }
        acc = acc.plus(v.at(idx));
        idx += 1;
    }
    proof {
        lemma_total_all(terms);
    }
    acc.to_isize().unwrap()
}

/// The magnitude of any indexable operand: the sum of squares is accumulated
/// in `T`, widened, and its square root taken.
pub fn magnitude_of<T: Element, const N: usize, V: Indexed<T, N>>(v: &V) -> (r: usize)
    requires
        v.wf(),
        all_representable::<T>(product_of(v.values(), v.values())),
        accumulates_in::<T>(product_of(v.values(), v.values())),
        dot(v.values(), v.values()) <= usize::MAX,
    ensures
        is_floor_sqrt(r as int, dot(v.values(), v.values())),
{
    let ghost terms = product_of(v.values(), v.values());
    proof {
        v.lemma_wf();
        assert(terms.take(0) =~= Seq::<int>::empty());
    }
    let mut acc: T = T::zero();
    let mut idx: usize = 0;
    while idx < N
        invariant
            idx <= N,
            v.wf(),
            v.values().len() == N,
            terms == product_of(v.values(), v.values()),
            all_representable::<T>(terms),
            accumulates_in::<T>(terms),
            acc.value() == total(terms.take(idx as int)),
        decreases N - idx,
    {
        proof {
            lemma_total_step(terms, idx as int);
            assert(T::representable(terms[idx as int]));
            assert(T::representable(total(terms.take(idx + 1))));
        }
        let e = v.at(idx);
        acc = acc.plus(e.times(e));
        idx += 1;
    }
    proof {
        lemma_total_all(terms);
        lemma_squares_total_nonnegative(v.values());
    }
    usize_sqrt(acc.to_usize().unwrap())
}

/// The tensor product of the first `M` elements of `lhs` with `rhs`, as a
/// matrix of inline rows.
pub fn tensor_of<
    T: Element,
    const N: usize,
    const M: usize,
    L: Indexed<T, N>,
    R: Indexed<T, N>,
>(lhs: &L, rhs: &R) -> (r: Matrix<T, M, N>)
    requires
        M <= N,
        lhs.wf(),
        rhs.wf(),
        all_rows_representable::<T>(outer(lhs.values(), rhs.values(), M as nat)),
    ensures
        r.wf(),
        r.values() == outer(lhs.values(), rhs.values(), M as nat),
{
    let ghost product = outer(lhs.values(), rhs.values(), M as nat);
    proof {
        lhs.lemma_wf();
        rhs.lemma_wf();
    }
    let mut rows: Vec<Vector<T, N>> = Vec::with_capacity(M);
    let mut row_idx: usize = 0;
    while row_idx < M
        invariant
            row_idx <= M <= N,
            lhs.wf(),
            rhs.wf(),
            lhs.values().len() == N,
            rhs.values().len() == N,
            product == outer(lhs.values(), rhs.values(), M as nat),
            all_rows_representable::<T>(product),
            rows@.len() == row_idx,
            forall|i: int|
                0 <= i < row_idx ==> (#[trigger] rows@[i]).wf() && rows@[i].values() == product[i],
        decreases M - row_idx,
    {
        assert(all_representable::<T>(product[row_idx as int]));
        let factor = lhs.at(row_idx);
        let mut row: [T; N] = [T::zero(); N];
        let mut col_idx: usize = 0;
        while col_idx < N
            invariant
                col_idx <= N,
                row_idx < M,
                rhs.wf(),
                rhs.values().len() == N,
                product == outer(lhs.values(), rhs.values(), M as nat),
                all_representable::<T>(product[row_idx as int]),
                factor.value() == lhs.values()[row_idx as int],
                forall|j: int|
                    0 <= j < col_idx ==> (#[trigger] row@[j]).value() == product[row_idx as int][j],
            decreases N - col_idx,
        {
            assert(T::representable(product[row_idx as int][col_idx as int]));
            row[col_idx] = factor.times(rhs.at(col_idx));
            col_idx += 1;
        }
        let small_vector = SmallVector { data: row };
        assert(small_vector.values() =~= product[row_idx as int]);
        rows.push(Vector::Small(small_vector));
        row_idx += 1;
    }
    let r = Matrix { inner: rows };
    assert(r.values() =~= product);
    r
}

/// Vector addition commutes: `a.add_vector(b)` and `b.add_vector(a)` hold the
/// same integers.
pub proof fn law_add_vector_commutes<
    T: Element,
    const N: usize,
    A: Indexed<T, N>,
    B: Indexed<T, N>,
>(a: &A, b: &B)
    requires
        a.wf(),
        b.wf(),
    ensures
        sum_of(a.values(), b.values()) == sum_of(b.values(), a.values()),
{
    a.lemma_wf();
    b.lemma_wf();
    lemma_sum_commutes(a.values(), b.values());
}

/// Subtraction undoes addition: `a.add_vector(b).sub_vector(b)` holds the
/// integers of `a`.
pub proof fn law_sub_vector_undoes_add_vector<
    T: Element,
    const N: usize,
    A: Indexed<T, N>,
    B: Indexed<T, N>,
>(a: &A, b: &B)
    requires
        a.wf(),
        b.wf(),
    ensures
        difference_of(sum_of(a.values(), b.values()), b.values()) == a.values(),
{
    a.lemma_wf();
    b.lemma_wf();
    lemma_sum_then_difference(a.values(), b.values());
}

/// Scaling by one changes nothing and scaling by zero gives the zero vector,
/// for every element type: on any well-formed vector `a.scalar(1)` and
/// `a.scalar(0)` may be called (the factor and every product can be stored),
/// `a.scalar(1)` holds the integers of `a`, and `a.scalar(0)` holds `N`
/// zeros.
pub proof fn law_scalar_one_and_zero<T: Element, const N: usize, A: Indexed<T, N>>(a: &A)
    requires
        a.wf(),
    ensures
        T::representable(1),
        all_representable::<T>(scaled(a.values(), 1)),
        scaled(a.values(), 1) == a.values(),
        T::representable(0),
        all_representable::<T>(scaled(a.values(), 0)),
        scaled(a.values(), 0) == zeros(N as nat),
{
    a.lemma_wf();
    T::lemma_zero_and_one_representable();
    lemma_scaled_by_one(a.values());
    lemma_scaled_by_zero(a.values());
}

/// The dot product commutes: `a.dot(b)` is `b.dot(a)`.
pub proof fn law_dot_commutes<T: Element, const N: usize, A: Indexed<T, N>, B: Indexed<T, N>>(
    a: &A,
    b: &B,
)
    requires
        a.wf(),
        b.wf(),
    ensures
        dot(a.values(), b.values()) == dot(b.values(), a.values()),
{
    a.lemma_wf();
    b.lemma_wf();
    lemma_dot_commutes(a.values(), b.values());
}

/// The cross product is anti-commutative: `a.cross(b)` holds the integers of
/// `b.cross(a).scalar(-1)`.
pub proof fn law_cross_anticommutes<
    T: Element,
    const N: usize,
    A: Indexed<T, N>,
    B: Indexed<T, N>,
>(a: &A, b: &B)
    requires
        N == 3,
        a.wf(),
        b.wf(),
    ensures
        cross(a.values(), b.values()) == scaled(cross(b.values(), a.values()), -1),
{
    a.lemma_wf();
    b.lemma_wf();
    lemma_cross_anticommutes(a.values(), b.values());
}

/// Scaling in place and scaling into a new vector agree, for every kind of
/// vector: if `x.scalar(k)` returned `returned`, then whenever `scalar_mut(k)`
/// has run on a vector that was `x`, that vector holds the integers of
/// `returned`.
pub proof fn law_scalar_forms_agree<T: Element, const N: usize, V: MathVector<T, N>>(
    x: V,
    k: isize,
    returned: V,
)
    requires
        call_ensures(V::scalar, (&x, k), returned),
    ensures
        forall|changed: &mut V|
            *changed == x && call_ensures(V::scalar_mut, (changed, k), ())
                ==> (#[trigger] final(changed).values()) == returned.values(),
{
}

} // verus!
