//! Inline storage: the elements live in the vector itself.

use crate::algebra::zeros;
use crate::element::{lemma_values_representable, random_elements, values_of, Element};
use crate::math_vector::Indexed;
use std::ops::{Deref, Index, IndexMut};
use vstd::prelude::*;
use vstd::slice::slice_to_vec;

pub mod into_array;
pub mod math;
pub mod math_ops;

use into_array::IntoArray;

verus! {

/// A vector of exactly `N` elements held in an array.
#[derive(Debug)]
pub struct SmallVector<T, const N: usize> {
    pub data: [T; N],
}

impl<T, const N: usize> View for SmallVector<T, N> {
    type V = Seq<T>;

    open spec fn view(&self) -> Seq<T> {
        self.data@
    }
}

impl<T, const N: usize> SmallVector<T, N> {
    /// The vector that holds the items of `data`, in order.
    pub fn new(data: impl IntoArray<T, N>) -> (r: Self)
        requires
            data.items().len() == N,
        ensures
            r@ == data.items(),
    {
        SmallVector { data: data.into_array() }
    }

    /// The array behind the vector.
    pub fn to_array(self) -> (r: [T; N])
        ensures
            r@ == self@,
    {
        self.data
    }
}

impl<T: Copy, const N: usize> SmallVector<T, N> {
    /// The elements as a `Vec`, in order.
    pub fn to_vec(self) -> (r: Vec<T>)
        ensures
            r@ == self@,
    {
        slice_to_vec(self.data.as_slice())
    }
}

impl<T: Element, const N: usize> SmallVector<T, N> {
    /// A vector of `N` elements drawn from the thread's random source: the
    /// draws, in their order.
    pub fn new_random() -> (r: Self)
        ensures
            r@.len() == N,
    {
        SmallVector::new(random_elements::<T>(N))
    }
}

impl<T: Copy, const N: usize> Clone for SmallVector<T, N> {
    fn clone(&self) -> (r: Self)
        ensures
            r == *self,
    {
        SmallVector { data: self.data }
    }
}

impl<T: Element, const N: usize> PartialEq for SmallVector<T, N> {
    /// Elementwise equality.
    fn eq(&self, other: &Self) -> (r: bool) {
        let mut idx: usize = 0;
        while idx < N
            invariant
                idx <= N,
                forall|i: int| 0 <= i < idx ==> self@[i] == other@[i],
            decreases N - idx,
        {
            if !self.data[idx].same(other.data[idx]) {
                return false;
            }
            idx += 1;
        }
        assert(self@ =~= other@);
        true
    }
}

impl<T: Element, const N: usize> vstd::std_specs::cmp::PartialEqSpecImpl for SmallVector<T, N> {
    open spec fn obeys_eq_spec() -> bool {
        true
    }

    open spec fn eq_spec(&self, other: &Self) -> bool {
        self@ == other@
    }
}

impl<T: Element, const N: usize> Default for SmallVector<T, N> {
    /// The zero vector.
    fn default() -> (r: Self)
        ensures
            r.values() == zeros(N as nat),
    {
        let r = SmallVector { data: [T::zero(); N] };
        assert(r.values() =~= zeros(N as nat));
        r
    }
}

impl<T, const N: usize> Index<usize> for SmallVector<T, N> {
    type Output = T;

    fn index(&self, idx: usize) -> (r: &T)
        ensures
            *r == self@[idx as int],
    {
        &self.data[idx]
    }
}

impl<T, const N: usize> vstd::std_specs::core::IndexSpecImpl<usize> for SmallVector<T, N> {
    open spec fn index_req(&self, idx: &usize) -> bool {
        *idx < N
    }
}

impl<T, const N: usize> IndexMut<usize> for SmallVector<T, N> {
    fn index_mut(&mut self, idx: usize) -> (r: &mut T)
        requires
            idx < N,
        ensures
            *r == old(self)@[idx as int],
            final(self)@ == old(self)@.update(idx as int, *final(r)),
    {
        &mut self.data[idx]
    }
}

impl<T, const N: usize> Deref for SmallVector<T, N> {
    type Target = [T; N];

    fn deref(&self) -> (r: &[T; N])
        ensures
            r@ == self@,
    {
        &self.data
    }
}

impl<T: Element, const N: usize> Indexed<T, N> for SmallVector<T, N> {
    open spec fn values(&self) -> Seq<int> {
        values_of(self@)
    }

    open spec fn wf(&self) -> bool {
        true
    }

    proof fn lemma_wf(&self) {
        lemma_values_representable(self@);
    }

    fn at(&self, idx: usize) -> (r: T) {
        self.data[idx]
    }
}

} // verus!
