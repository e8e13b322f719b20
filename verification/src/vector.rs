//! A vector of fixed length that is stored either inline or on the heap.

use crate::algebra::zeros;
use crate::element::{lemma_values_injective, random_elements, Element};
use crate::math_vector::Indexed;
use std::ops::{Index, IndexMut};
use vstd::prelude::*;

pub mod iterator;
pub mod large_vector;
pub mod math;
pub mod math_ops;
pub mod small_vector;

use large_vector::into_vec::IntoVec;
use large_vector::LargeVector;
use small_vector::into_array::IntoArray;
use small_vector::SmallVector;

verus! {

/// The longest vector that random construction still stores inline.
pub const INLINE_LIMIT: usize = 5000;

/// A mathematical vector of `N` elements, stored inline (`Small`) or on the
/// heap (`Large`).
///
/// Both storages hold the same thing, exactly `N` elements, and every
/// operation gives its result the storage of the vector it was called on.
/// Two vectors are equal when they hold the same elements, whatever their
/// storage.
#[derive(Debug)]
pub enum Vector<T, const N: usize> {
    Small(SmallVector<T, N>),
    Large(LargeVector<T, N>),
}

/// The inline storage under the name that says where it lives.
pub type InlineVector<T, const N: usize> = SmallVector<T, N>;

/// The heap storage under the name that says where it lives.
pub type HeapVector<T, const N: usize> = LargeVector<T, N>;

impl<T, const N: usize> View for Vector<T, N> {
    type V = Seq<T>;

    open spec fn view(&self) -> Seq<T> {
        match self {
            Vector::Small(small_vector) => small_vector@,
            Vector::Large(large_vector) => large_vector@,
        }
    }
}

impl<T, const N: usize> Vector<T, N> {
    /// An inline vector that holds the items of `data`, in order.
    pub fn new(data: impl IntoArray<T, N>) -> (r: Self)
        requires
            data.items().len() == N,
        ensures
            r is Small,
            r@ == data.items(),
    {
        Self::Small(SmallVector::new(data))
    }

    /// A heap vector that holds the items of `data`, in order.
    pub fn new_large(data: impl IntoVec<T, N>) -> (r: Self)
        requires
            data.items().len() == N,
        ensures
            r is Large,
            r@ == data.items(),
    {
        Self::Large(LargeVector::new(data))
    }

    /// The vector that holds the given draws in their order: inline up to
    /// `INLINE_LIMIT` elements, on the heap beyond.
    pub fn from_draws(draws: Vec<T>) -> (r: Self)
        requires
            draws@.len() == N,
        ensures
            r@ == draws@,
            r is Small <==> N <= INLINE_LIMIT,
    {
        if N <= INLINE_LIMIT {
            Self::Small(SmallVector::new(draws))
        } else {
            Self::Large(LargeVector::new(draws))
        }
    }

    /// How many elements the vector holds; `N` when it is well-formed.
    pub fn len(&self) -> (r: usize)
        ensures
            r == self@.len(),
    {
        match self {
            Self::Small(_) => N,
            Self::Large(large_vector) => large_vector.data.len(),
        }
    }
}

impl<T: Element, const N: usize> Vector<T, N> {
    /// A vector of random elements: `N` draws from the thread's random
    /// source, handed to `from_draws`.
    pub fn new_random() -> (r: Self)
        ensures
            r is Small <==> N <= INLINE_LIMIT,
            r@.len() == N,
    {
        Self::from_draws(random_elements::<T>(N))
    }

    /// A heap vector of random elements: `N` draws from the thread's random
    /// source, handed to `new_large`.
    pub fn new_large_random() -> (r: Self)
        ensures
            r is Large,
            r@.len() == N,
    {
        Self::new_large(random_elements::<T>(N))
    }
}

impl<T: Copy, const N: usize> Clone for Vector<T, N> {
    fn clone(&self) -> (r: Self)
        ensures
            r@ == self@,
            r is Small <==> self is Small,
    {
        match self {
            Self::Small(small_vector) => Self::Small(small_vector.clone()),
            Self::Large(large_vector) => Self::Large(large_vector.clone()),
        }
    }
}

impl<T: Element, const N: usize> Default for Vector<T, N> {
    /// The inline zero vector.
    fn default() -> (r: Self)
        ensures
            r is Small,
            r.values() == zeros(N as nat),
    {
        Self::Small(SmallVector::default())
    }
}

impl<T, const N: usize> Index<usize> for Vector<T, N> {
    type Output = T;

    fn index(&self, idx: usize) -> (r: &T)
        ensures
            *r == self@[idx as int],
    {
        match self {
            Self::Small(small_vector) => &small_vector.data[idx],
            Self::Large(large_vector) => &large_vector.data[idx],
        }
    }
}

impl<T, const N: usize> vstd::std_specs::core::IndexSpecImpl<usize> for Vector<T, N> {
    open spec fn index_req(&self, idx: &usize) -> bool {
        *idx < self@.len()
    }
}

impl<T, const N: usize> IndexMut<usize> for Vector<T, N> {
    fn index_mut(&mut self, idx: usize) -> (r: &mut T)
        requires
            idx < old(self)@.len(),
        ensures
            *r == old(self)@[idx as int],
            final(self)@ == old(self)@.update(idx as int, *final(r)),
            *final(self) is Small <==> *old(self) is Small,
    {
        match self {
            Self::Small(small_vector) => &mut small_vector.data[idx],
            Self::Large(large_vector) => &mut large_vector.data[idx],
        }
    }
}

impl<T: Element, const N: usize> PartialEq for Vector<T, N> {
    /// Elementwise equality, whatever the storage of either side.
    fn eq(&self, other: &Self) -> (r: bool) {
        if self.len() != other.len() {
            return false;
        }
        let len = self.len();
        let mut idx: usize = 0;
        while idx < len
            invariant
                idx <= len,
                len == self@.len(),
                len == other@.len(),
                forall|i: int| 0 <= i < idx ==> self@[i] == other@[i],
            decreases len - idx,
        {
            if !self[idx].same(other[idx]) {
                return false;
            }
            idx += 1;
        }
        assert(self@ =~= other@);
        true
    }
}

impl<T: Element, const N: usize> vstd::std_specs::cmp::PartialEqSpecImpl for Vector<T, N> {
    open spec fn obeys_eq_spec() -> bool {
        true
    }

    open spec fn eq_spec(&self, other: &Self) -> bool {
        self@ == other@
    }
}

impl<T: Element, const N: usize> Indexed<T, N> for Vector<T, N> {
    open spec fn values(&self) -> Seq<int> {
        match self {
            Vector::Small(small_vector) => small_vector.values(),
            Vector::Large(large_vector) => large_vector.values(),
        }
    }

    open spec fn wf(&self) -> bool {
        match self {
            Vector::Small(small_vector) => small_vector.wf(),
            Vector::Large(large_vector) => large_vector.wf(),
        }
    }

    proof fn lemma_wf(&self) {
        match self {
            Vector::Small(small_vector) => small_vector.lemma_wf(),
            Vector::Large(large_vector) => large_vector.lemma_wf(),
        }
    }

    fn at(&self, idx: usize) -> (r: T) {
        match self {
            Vector::Small(small_vector) => small_vector.at(idx),
            Vector::Large(large_vector) => large_vector.at(idx),
        }
    }
}

/// Vectors that stand for the same integers hold the same elements, whatever
/// their storage.
pub proof fn lemma_vector_values_injective<T: Element, const N: usize>(a: Vector<T, N>, b: Vector<T, N>)
    requires
        a.values() == b.values(),
    ensures
        a@ == b@,
{
    lemma_values_injective(a@, b@);
}

} // verus!
