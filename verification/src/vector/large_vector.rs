//! Heap storage: the elements live in a separate allocation.

use crate::algebra::zeros;
use crate::element::{lemma_values_representable, random_elements, values_of, Element};
use crate::math_vector::Indexed;
use crate::vector::small_vector::into_array::vec_try_into_array;
use std::ops::{Index, IndexMut};
use vstd::pervasive::unreached;
use vstd::prelude::*;

pub mod into_vec;
pub mod iterator;
pub mod math;
pub mod math_ops;

use into_vec::IntoVec;

verus! {

/// A vector of `N` elements held in a `Vec`.
///
/// The allocation is made once and never resized: a well-formed vector holds
/// exactly `N` elements, and every operation keeps it so.
#[derive(Debug)]
pub struct LargeVector<T, const N: usize> {
    pub data: Vec<T>,
}

impl<T, const N: usize> View for LargeVector<T, N> {
    type V = Seq<T>;

    open spec fn view(&self) -> Seq<T> {
        self.data@
    }
}

impl<T, const N: usize> LargeVector<T, N> {
    /// The vector that holds the items of `data`, in order.
    pub fn new(data: impl IntoVec<T, N>) -> (r: Self)
        requires
            data.items().len() == N,
        ensures
            r@ == data.items(),
    {
        LargeVector { data: data.into_vec() }
    }

    /// The `Vec` behind the vector.
    pub fn to_vec(self) -> (r: Vec<T>)
        ensures
            r@ == self@,
    {
        self.data
    }

    /// The elements as an array, in order.
    pub fn to_array(self) -> (r: [T; N])
        requires
            self@.len() == N,
        ensures
            r@ == self@,
    {
        match vec_try_into_array(self.data) {
            Ok(array) => array,
            Err(_) => unreached(),
        }
    }
}

impl<T: Element, const N: usize> LargeVector<T, N> {
    /// A vector of `N` elements drawn from the thread's random source: the
    /// draws, in their order.
    pub fn new_random() -> (r: Self)
        ensures
            r@.len() == N,
    {
        LargeVector::new(random_elements::<T>(N))
    }
}

impl<T: Copy, const N: usize> Clone for LargeVector<T, N> {
    fn clone(&self) -> (r: Self)
        ensures
            r@ == self@,
    {
        let mut data: Vec<T> = Vec::with_capacity(self.data.len());
        let mut idx: usize = 0;
        while idx < self.data.len()
            invariant
                idx <= self.data@.len(),
                data@ == self.data@.take(idx as int),
            decreases self.data@.len() - idx,
        {
            data.push(self.data[idx]);
            idx += 1;
        }
        LargeVector { data }
    }
}

impl<T: Element, const N: usize> PartialEq for LargeVector<T, N> {
    /// Elementwise equality.
    fn eq(&self, other: &Self) -> (r: bool) {
        if self.data.len() != other.data.len() {
            return false;
        }
        let len = self.data.len();
        let mut idx: usize = 0;
        while idx < len
            invariant
                idx <= len,
                len == self@.len(),
                len == other@.len(),
                forall|i: int| 0 <= i < idx ==> self@[i] == other@[i],
            decreases len - idx,
        {
            if !self.data[idx].same(other.data[idx]) {
                return false;
            }
            idx += 1;
        }
        assert(self@ =~= other@);
        true
    }
}

impl<T: Element, const N: usize> vstd::std_specs::cmp::PartialEqSpecImpl for LargeVector<T, N> {
    open spec fn obeys_eq_spec() -> bool {
        true
    }

    open spec fn eq_spec(&self, other: &Self) -> bool {
        self@ == other@
    }
}

impl<T: Element, const N: usize> Default for LargeVector<T, N> {
    /// The zero vector.
    fn default() -> (r: Self)
        ensures
            r.wf(),
            r.values() == zeros(N as nat),
    {
        let mut data: Vec<T> = Vec::with_capacity(N);
        let mut idx: usize = 0;
        while idx < N
            invariant
                idx <= N,
                data@.len() == idx,
                forall|i: int| 0 <= i < idx ==> (#[trigger] data@[i]).value() == 0,
            decreases N - idx,
        {
            data.push(T::zero());
            idx += 1;
        }
        let r = LargeVector { data };
        assert(r.values() =~= zeros(N as nat));
        r
    }
}

impl<T, const N: usize> Index<usize> for LargeVector<T, N> {
    type Output = T;

    fn index(&self, idx: usize) -> (r: &T)
        ensures
            *r == self@[idx as int],
    {
        &self.data[idx]
    }
}

impl<T, const N: usize> vstd::std_specs::core::IndexSpecImpl<usize> for LargeVector<T, N> {
    open spec fn index_req(&self, idx: &usize) -> bool {
        *idx < self@.len()
    }
}

impl<T, const N: usize> IndexMut<usize> for LargeVector<T, N> {
    fn index_mut(&mut self, idx: usize) -> (r: &mut T)
        requires
            idx < old(self)@.len(),
        ensures
            *r == old(self)@[idx as int],
            final(self)@ == old(self)@.update(idx as int, *final(r)),
    {
        &mut self.data[idx]
    }
}

impl<T: Element, const N: usize> Indexed<T, N> for LargeVector<T, N> {
    open spec fn values(&self) -> Seq<int> {
        values_of(self@)
    }

    open spec fn wf(&self) -> bool {
        self@.len() == N
    }

    proof fn lemma_wf(&self) {
        lemma_values_representable(self@);
    }

    fn at(&self, idx: usize) -> (r: T) {
        self.data[idx]
    }
}

} // verus!
