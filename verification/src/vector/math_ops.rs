//! The arithmetic operators on vectors of either storage.

use crate::algebra::{difference_of, product_of, sum_of};
use crate::element::{all_representable, Element};
use crate::math_vector::{Indexed, MathVector};
use crate::vector::Vector;
use std::ops::{Add, AddAssign, Mul, MulAssign, Sub, SubAssign};
use vstd::prelude::*;

verus! {

impl<T: Element, const N: usize> Add for Vector<T, N> {
    type Output = Self;

    /// `self + rhs` is the sum of the two vectors.
    fn add(self, rhs: Self) -> (r: Self)
        ensures
            r.wf(),
            r.values() == sum_of(self.values(), rhs.values()),
            r is Small <==> self is Small,
    {
        self.add_vector(rhs)
    }
}

impl<T: Element, const N: usize> vstd::std_specs::ops::AddSpecImpl for Vector<T, N> {
    /// The result is stated on `add` itself, over the integers it holds.
    open spec fn obeys_add_spec() -> bool {
        false
    }

    open spec fn add_req(self, rhs: Self) -> bool {
        &&& self.wf()
        &&& rhs.wf()
        &&& all_representable::<T>(sum_of(self.values(), rhs.values()))
    }

    open spec fn add_spec(self, rhs: Self) -> Self {
        choose|r: Self| r.wf() && r.values() == sum_of(self.values(), rhs.values())
    }
}

impl<T: Element, const N: usize> AddAssign for Vector<T, N> {
    /// `self += rhs` leaves the sum of the two vectors in `self`.
    fn add_assign(&mut self, rhs: Self)
        requires
            old(self).wf(),
            rhs.wf(),
            all_representable::<T>(sum_of(old(self).values(), rhs.values())),
        ensures
            final(self).wf(),
            final(self).values() == sum_of(old(self).values(), rhs.values()),
            *final(self) is Small <==> *old(self) is Small,
    {
        self.add_vector_mut(rhs)
    }
}

impl<T: Element, const N: usize> Sub for Vector<T, N> {
    type Output = Self;

    /// `self - rhs` is the difference of the two vectors.
    fn sub(self, rhs: Self) -> (r: Self)
        ensures
            r.wf(),
            r.values() == difference_of(self.values(), rhs.values()),
            r is Small <==> self is Small,
    {
        self.sub_vector(rhs)
    }
}

impl<T: Element, const N: usize> vstd::std_specs::ops::SubSpecImpl for Vector<T, N> {
    /// The result is stated on `sub` itself, over the integers it holds.
    open spec fn obeys_sub_spec() -> bool {
        false
    }

    open spec fn sub_req(self, rhs: Self) -> bool {
        &&& self.wf()
        &&& rhs.wf()
        &&& all_representable::<T>(difference_of(self.values(), rhs.values()))
    }

    open spec fn sub_spec(self, rhs: Self) -> Self {
        choose|r: Self| r.wf() && r.values() == difference_of(self.values(), rhs.values())
    }
}

impl<T: Element, const N: usize> SubAssign for Vector<T, N> {
    /// `self -= rhs` leaves the difference of the two vectors in `self`.
    fn sub_assign(&mut self, rhs: Self)
        requires
            old(self).wf(),
            rhs.wf(),
            all_representable::<T>(difference_of(old(self).values(), rhs.values())),
        ensures
            final(self).wf(),
            final(self).values() == difference_of(old(self).values(), rhs.values()),
            *final(self) is Small <==> *old(self) is Small,
    {
        self.sub_vector_mut(rhs)
    }
}

impl<T: Element, const N: usize> Mul for Vector<T, N> {
    type Output = Self;

    /// `self * rhs` is the entrywise product of the two vectors.
    fn mul(self, rhs: Self) -> (r: Self)
        ensures
            r.wf(),
            r.values() == product_of(self.values(), rhs.values()),
            r is Small <==> self is Small,
    {
        self.entrywise(rhs)
    }
}

impl<T: Element, const N: usize> vstd::std_specs::ops::MulSpecImpl for Vector<T, N> {
    /// The result is stated on `mul` itself, over the integers it holds.
    open spec fn obeys_mul_spec() -> bool {
        false
    }

    open spec fn mul_req(self, rhs: Self) -> bool {
        &&& self.wf()
        &&& rhs.wf()
        &&& all_representable::<T>(product_of(self.values(), rhs.values()))
    }

    open spec fn mul_spec(self, rhs: Self) -> Self {
        choose|r: Self| r.wf() && r.values() == product_of(self.values(), rhs.values())
    }
}

impl<T: Element, const N: usize> MulAssign for Vector<T, N> {
    /// `self *= rhs` leaves the entrywise product of the two vectors in `self`.
    fn mul_assign(&mut self, rhs: Self)
        requires
            old(self).wf(),
            rhs.wf(),
            all_representable::<T>(product_of(old(self).values(), rhs.values())),
        ensures
            final(self).wf(),
            final(self).values() == product_of(old(self).values(), rhs.values()),
            *final(self) is Small <==> *old(self) is Small,
    {
        self.entrywise_mut(rhs)
    }
}

} // verus!
