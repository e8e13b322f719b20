//! The vector operations on heap storage.

use crate::algebra::{cross, cross_terms, difference_of, product_of, scaled, sum_of};
use crate::element::{all_representable, Element};
use crate::math_vector::{dot_of, magnitude_of, sum_of_elements, tensor_of, Indexed, MathVector};
use crate::matrix::Matrix;
use crate::vector::large_vector::LargeVector;
use vstd::prelude::*;

verus! {

impl<T: Element, const N: usize> MathVector<T, N> for LargeVector<T, N> {
    fn scalar(&self, scalar: isize) -> (r: Self) {
        let ghost target = scaled(self.values(), scalar as int);
        let factor: T = T::from_isize(scalar).unwrap();
        let mut scaled_vec: Vec<T> = Vec::with_capacity(N);
        let mut idx: usize = 0;
        while idx < N
            invariant
                idx <= N,
                self.wf(),
                factor.value() == scalar,
                target == scaled(self.values(), scalar as int),
                all_representable::<T>(target),
                scaled_vec@.len() == idx,
                forall|i: int| 0 <= i < idx ==> (#[trigger] scaled_vec@[i]).value() == target[i],
            decreases N - idx,
        {
            assert(T::representable(target[idx as int]));
            scaled_vec.push(self.data[idx].times(factor));
            idx += 1;
        }
        let r = LargeVector { data: scaled_vec };
        assert(r.values() =~= target);
        r
    }

    fn scalar_mut(&mut self, scalar: isize) {
        let ghost target = scaled(old(self).values(), scalar as int);
        let factor: T = T::from_isize(scalar).unwrap();
        let mut idx: usize = 0;
        while idx < N
            invariant
                idx <= N,
                self.data@.len() == N,
                old(self).data@.len() == N,
                factor.value() == scalar,
                target == scaled(old(self).values(), scalar as int),
                all_representable::<T>(target),
                forall|i: int| 0 <= i < idx ==> (#[trigger] self.data@[i]).value() == target[i],
                forall|i: int| idx <= i < N ==> self.data@[i] == old(self).data@[i],
            decreases N - idx,
        {
            assert(T::representable(target[idx as int]));
            self.data[idx] = self.data[idx].times(factor);
            idx += 1;
        }
        assert(self.values() =~= target);
    }

    fn dot<R: Indexed<T, N>>(&self, rhs: R) -> (r: isize) {
        dot_of(self, &rhs)
    }

    fn add_vector<R: Indexed<T, N>>(&self, rhs: R) -> (r: Self) {
        let ghost target = sum_of(self.values(), rhs.values());
        proof {
            rhs.lemma_wf();
        }
        let mut added_vec: Vec<T> = Vec::with_capacity(N);
        let mut idx: usize = 0;
        while idx < N
            invariant
                idx <= N,
                self.wf(),
                rhs.wf(),
                rhs.values().len() == N,
                target == sum_of(self.values(), rhs.values()),
                all_representable::<T>(target),
                added_vec@.len() == idx,
                forall|i: int| 0 <= i < idx ==> (#[trigger] added_vec@[i]).value() == target[i],
            decreases N - idx,
        {
            assert(T::representable(target[idx as int]));
            added_vec.push(self.data[idx].plus(rhs.at(idx)));
            idx += 1;
        }
        let r = LargeVector { data: added_vec };
        assert(r.values() =~= target);
        r
    }

    fn add_vector_mut<R: Indexed<T, N>>(&mut self, rhs: R) {
        let ghost target = sum_of(old(self).values(), rhs.values());
        proof {
            rhs.lemma_wf();
        }
        let mut idx: usize = 0;
        while idx < N
            invariant
                idx <= N,
                self.data@.len() == N,
                old(self).data@.len() == N,
                rhs.wf(),
                rhs.values().len() == N,
                target == sum_of(old(self).values(), rhs.values()),
                all_representable::<T>(target),
                forall|i: int| 0 <= i < idx ==> (#[trigger] self.data@[i]).value() == target[i],
                forall|i: int| idx <= i < N ==> self.data@[i] == old(self).data@[i],
            decreases N - idx,
        {
            assert(T::representable(target[idx as int]));
            self.data[idx] = self.data[idx].plus(rhs.at(idx));
            idx += 1;
        }
        assert(self.values() =~= target);
    }

    fn sub_vector<R: Indexed<T, N>>(&self, rhs: R) -> (r: Self) {
        let ghost target = difference_of(self.values(), rhs.values());
        proof {
            rhs.lemma_wf();
        }
        let mut subtracted_vec: Vec<T> = Vec::with_capacity(N);
        let mut idx: usize = 0;
        while idx < N
            invariant
                idx <= N,
                self.wf(),
                rhs.wf(),
                rhs.values().len() == N,
                target == difference_of(self.values(), rhs.values()),
                all_representable::<T>(target),
                subtracted_vec@.len() == idx,
                forall|i: int| 0 <= i < idx ==> (#[trigger] subtracted_vec@[i]).value() == target[i],
            decreases N - idx,
        {
            assert(T::representable(target[idx as int]));
            subtracted_vec.push(self.data[idx].minus(rhs.at(idx)));
            idx += 1;
        }
        let r = LargeVector { data: subtracted_vec };
        assert(r.values() =~= target);
        r
    }

    fn sub_vector_mut<R: Indexed<T, N>>(&mut self, rhs: R) {
        let ghost target = difference_of(old(self).values(), rhs.values());
        proof {
            rhs.lemma_wf();
        }
        let mut idx: usize = 0;
        while idx < N
            invariant
                idx <= N,
                self.data@.len() == N,
                old(self).data@.len() == N,
                rhs.wf(),
                rhs.values().len() == N,
                target == difference_of(old(self).values(), rhs.values()),
                all_representable::<T>(target),
                forall|i: int| 0 <= i < idx ==> (#[trigger] self.data@[i]).value() == target[i],
                forall|i: int| idx <= i < N ==> self.data@[i] == old(self).data@[i],
            decreases N - idx,
        {
            assert(T::representable(target[idx as int]));
            self.data[idx] = self.data[idx].minus(rhs.at(idx));
            idx += 1;
        }
        assert(self.values() =~= target);
    }

    fn entrywise<R: Indexed<T, N>>(&self, rhs: R) -> (r: Self) {
        let ghost target = product_of(self.values(), rhs.values());
        proof {
            rhs.lemma_wf();
        }
        let mut multiplied_vec: Vec<T> = Vec::with_capacity(N);
        let mut idx: usize = 0;
        while idx < N
            invariant
                idx <= N,
                self.wf(),
                rhs.wf(),
                rhs.values().len() == N,
                target == product_of(self.values(), rhs.values()),
                all_representable::<T>(target),
                multiplied_vec@.len() == idx,
                forall|i: int| 0 <= i < idx ==> (#[trigger] multiplied_vec@[i]).value() == target[i],
            decreases N - idx,
        {
            assert(T::representable(target[idx as int]));
            multiplied_vec.push(self.data[idx].times(rhs.at(idx)));
            idx += 1;
        }
        let r = LargeVector { data: multiplied_vec };
        assert(r.values() =~= target);
        r
    }

    fn entrywise_mut<R: Indexed<T, N>>(&mut self, rhs: R) {
        let ghost target = product_of(old(self).values(), rhs.values());
        proof {
            rhs.lemma_wf();
        }
        let mut idx: usize = 0;
        while idx < N
            invariant
                idx <= N,
                self.data@.len() == N,
                old(self).data@.len() == N,
                rhs.wf(),
                rhs.values().len() == N,
                target == product_of(old(self).values(), rhs.values()),
                all_representable::<T>(target),
                forall|i: int| 0 <= i < idx ==> (#[trigger] self.data@[i]).value() == target[i],
                forall|i: int| idx <= i < N ==> self.data@[i] == old(self).data@[i],
            decreases N - idx,
        {
            assert(T::representable(target[idx as int]));
            self.data[idx] = self.data[idx].times(rhs.at(idx));
            idx += 1;
        }
        assert(self.values() =~= target);
    }

    fn cross<R: Indexed<T, N>>(&self, rhs: R) -> (r: Self) {
        let ghost terms = cross_terms(self.values(), rhs.values());
        let ghost target = cross(self.values(), rhs.values());
        proof {
            rhs.lemma_wf();
            assert(T::representable(terms[0]) && T::representable(terms[1]));
            assert(T::representable(terms[2]) && T::representable(terms[3]));
            assert(T::representable(terms[4]) && T::representable(terms[5]));
            assert(T::representable(target[0]) && T::representable(target[1]) && T::representable(
                target[2],
            ));
        }
        let mut crossed_vec: Vec<T> = Vec::with_capacity(N);

        crossed_vec.push(self.data[1].times(rhs.at(2)).minus(self.data[2].times(rhs.at(1))));
        crossed_vec.push(self.data[2].times(rhs.at(0)).minus(self.data[0].times(rhs.at(2))));
        crossed_vec.push(self.data[0].times(rhs.at(1)).minus(self.data[1].times(rhs.at(0))));

        let r = LargeVector { data: crossed_vec };
        assert(r.values() =~= target);
        r
    }

    fn cross_mut<R: Indexed<T, N>>(&mut self, rhs: R) {
        let ghost terms = cross_terms(old(self).values(), rhs.values());
        let ghost target = cross(old(self).values(), rhs.values());
        proof {
            rhs.lemma_wf();
            assert(T::representable(terms[0]) && T::representable(terms[1]));
            assert(T::representable(terms[2]) && T::representable(terms[3]));
            assert(T::representable(terms[4]) && T::representable(terms[5]));
            assert(T::representable(target[0]) && T::representable(target[1]) && T::representable(
                target[2],
            ));
        }
        let first = self.data[0];
        let second = self.data[1];
        let third = self.data[2];

        self.data[0] = second.times(rhs.at(2)).minus(third.times(rhs.at(1)));
        self.data[1] = third.times(rhs.at(0)).minus(first.times(rhs.at(2)));
        self.data[2] = first.times(rhs.at(1)).minus(second.times(rhs.at(0)));

        assert(self.values() =~= target);
    }

    fn tensor_prod<const M: usize, R: Indexed<T, N>>(&self, rhs: R) -> (r: Matrix<T, M, N>) {
        tensor_of(self, &rhs)
    }

    fn magnitude(&self) -> (r: usize) {
        magnitude_of(self)
    }

    fn sum(&self) -> (r: isize) {
        sum_of_elements(self)
    }
}

} // verus!
