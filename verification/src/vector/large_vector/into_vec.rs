//! What a heap vector can be built from.

use crate::vector::small_vector::SmallVector;
use vstd::prelude::*;

verus! {

/// A source of items that can be turned into a `Vec`; a heap vector of `N`
/// elements is built from one that holds `N`.
pub trait IntoVec<T, const N: usize>: Sized {
    /// The items the source holds, in order.
    spec fn items(&self) -> Seq<T>;

    /// The items as a `Vec`.
    fn into_vec(self) -> (r: Vec<T>)
        ensures
            r@ == self.items(),
    ;
}

impl<T, const N: usize> IntoVec<T, N> for Vec<T> {
    open spec fn items(&self) -> Seq<T> {
        self@
    }

    fn into_vec(self) -> (r: Vec<T>) {
        self
    }
}

impl<T: Copy, const N: usize> IntoVec<T, N> for [T; N] {
    open spec fn items(&self) -> Seq<T> {
        self@
    }

    fn into_vec(self) -> (r: Vec<T>) {
        let mut converted_vec: Vec<T> = Vec::with_capacity(N);
        let mut idx: usize = 0;
        while idx < N
            invariant
                idx <= N,
                converted_vec@ == self@.take(idx as int),
            decreases N - idx,
        {
            converted_vec.push(self[idx]);
            idx += 1;
        }
        converted_vec
    }
}

impl<T: Copy, const N: usize> IntoVec<T, N> for SmallVector<T, N> {
    open spec fn items(&self) -> Seq<T> {
        self@
    }

    fn into_vec(self) -> (r: Vec<T>) {
        self.to_vec()
    }
}

} // verus!
