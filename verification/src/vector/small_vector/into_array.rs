//! What an inline vector can be built from.

use crate::vector::large_vector::LargeVector;
use vstd::pervasive::unreached;
use vstd::prelude::*;

verus! {

/// A source of exactly `N` items that can be turned into an array.
pub trait IntoArray<T, const N: usize>: Sized {
    /// The items the source holds, in order.
    spec fn items(&self) -> Seq<T>;

    /// The items as an array. A source of another length has no array.
    fn into_array(self) -> (r: [T; N])
        requires
            self.items().len() == N,
        ensures
            r@ == self.items(),
    ;
}

impl<T: Copy, const N: usize> IntoArray<T, N> for [T; N] {
    open spec fn items(&self) -> Seq<T> {
        self@
    }

    fn into_array(self) -> (r: [T; N]) {
        self
    }
}

/// std's `TryFrom<Vec<T>>` for `[T; N]`: the items as an array where the vector
/// holds exactly `N`, and the vector itself back where it does not.
#[verifier::external_body]
pub(crate) fn vec_try_into_array<T, const N: usize>(v: Vec<T>) -> (r: Result<[T; N], Vec<T>>)
    ensures
        r is Ok <==> v@.len() == N,
        r matches Ok(a) ==> a@ == v@,
        r matches Err(w) ==> w == v,
{
    v.try_into()
}

impl<T, const N: usize> IntoArray<T, N> for Vec<T> {
    open spec fn items(&self) -> Seq<T> {
        self@
    }

    fn into_array(self) -> (r: [T; N]) {
        match vec_try_into_array(self) {
            Ok(array) => array,
            Err(_) => unreached(),
        }
    }
}

impl<T, const N: usize> IntoArray<T, N> for LargeVector<T, N> {
    open spec fn items(&self) -> Seq<T> {
        self@
    }

    fn into_array(self) -> (r: [T; N]) {
        self.to_array()
    }
}

} // verus!
