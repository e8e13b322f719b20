//! The vector operations on a vector of either storage: each is handed to
//! the storage that is active, and the result keeps that storage.

use crate::element::Element;
use crate::math_vector::{Indexed, MathVector};
use crate::matrix::Matrix;
use crate::vector::Vector;
use vstd::prelude::*;

verus! {

impl<T: Element, const N: usize> MathVector<T, N> for Vector<T, N> {
    fn scalar(&self, scalar: isize) -> (r: Self)
        ensures
            r is Small <==> self is Small,
    {
        match self {
            Self::Small(small_vector) => Vector::Small(small_vector.scalar(scalar)),
            Self::Large(large_vector) => Vector::Large(large_vector.scalar(scalar)),
        }
    }

    fn scalar_mut(&mut self, scalar: isize)
        ensures
            *final(self) is Small <==> *old(self) is Small,
    {
        match self {
            Self::Small(small_vector) => small_vector.scalar_mut(scalar),
            Self::Large(large_vector) => large_vector.scalar_mut(scalar),
        }
    }

    fn dot<R: Indexed<T, N>>(&self, rhs: R) -> (r: isize) {
        match self {
            Self::Small(small_vector) => small_vector.dot(rhs),
            Self::Large(large_vector) => large_vector.dot(rhs),
        }
    }

    fn add_vector<R: Indexed<T, N>>(&self, rhs: R) -> (r: Self)
        ensures
            r is Small <==> self is Small,
    {
        match self {
            Self::Small(small_vector) => Vector::Small(small_vector.add_vector(rhs)),
            Self::Large(large_vector) => Vector::Large(large_vector.add_vector(rhs)),
        }
    }

    fn add_vector_mut<R: Indexed<T, N>>(&mut self, rhs: R)
        ensures
            *final(self) is Small <==> *old(self) is Small,
    {
        match self {
            Self::Small(small_vector) => small_vector.add_vector_mut(rhs),
            Self::Large(large_vector) => large_vector.add_vector_mut(rhs),
        }
    }

    fn sub_vector<R: Indexed<T, N>>(&self, rhs: R) -> (r: Self)
        ensures
            r is Small <==> self is Small,
    {
        match self {
            Self::Small(small_vector) => Vector::Small(small_vector.sub_vector(rhs)),
            Self::Large(large_vector) => Vector::Large(large_vector.sub_vector(rhs)),
        }
    }

    fn sub_vector_mut<R: Indexed<T, N>>(&mut self, rhs: R)
        ensures
            *final(self) is Small <==> *old(self) is Small,
    {
        match self {
            Self::Small(small_vector) => small_vector.sub_vector_mut(rhs),
            Self::Large(large_vector) => large_vector.sub_vector_mut(rhs),
        }
    }

    fn entrywise<R: Indexed<T, N>>(&self, rhs: R) -> (r: Self)
        ensures
            r is Small <==> self is Small,
    {
        match self {
            Self::Small(small_vector) => Vector::Small(small_vector.entrywise(rhs)),
            Self::Large(large_vector) => Vector::Large(large_vector.entrywise(rhs)),
        }
    }

    fn entrywise_mut<R: Indexed<T, N>>(&mut self, rhs: R)
        ensures
            *final(self) is Small <==> *old(self) is Small,
    {
        match self {
            Self::Small(small_vector) => small_vector.entrywise_mut(rhs),
            Self::Large(large_vector) => large_vector.entrywise_mut(rhs),
        }
    }

    fn cross<R: Indexed<T, N>>(&self, rhs: R) -> (r: Self)
        ensures
            r is Small <==> self is Small,
    {
        match self {
            Self::Small(small_vector) => Vector::Small(small_vector.cross(rhs)),
            Self::Large(large_vector) => Vector::Large(large_vector.cross(rhs)),
        }
    }

    fn cross_mut<R: Indexed<T, N>>(&mut self, rhs: R)
        ensures
            *final(self) is Small <==> *old(self) is Small,
    {
        match self {
            Self::Small(small_vector) => small_vector.cross_mut(rhs),
            Self::Large(large_vector) => large_vector.cross_mut(rhs),
        }
    }

    fn tensor_prod<const M: usize, R: Indexed<T, N>>(&self, rhs: R) -> (r: Matrix<T, M, N>) {
        match self {
            Self::Small(small_vector) => small_vector.tensor_prod(rhs),
            Self::Large(large_vector) => large_vector.tensor_prod(rhs),
        }
    }

    fn magnitude(&self) -> (r: usize) {
        match self {
            Self::Small(small_vector) => small_vector.magnitude(),
            Self::Large(large_vector) => large_vector.magnitude(),
        }
    }

    fn sum(&self) -> (r: isize) {
        match self {
            Self::Small(small_vector) => small_vector.sum(),
            Self::Large(large_vector) => large_vector.sum(),
        }
    }
}

} // verus!
