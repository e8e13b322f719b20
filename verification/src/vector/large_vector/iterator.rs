//! Iteration over a heap vector: by value, by reference and by mutable
//! reference, always from the first element to the last.

use crate::vector::large_vector::LargeVector;
use vstd::prelude::*;
use vstd::std_specs::iter::IteratorSpec;

verus! {

impl<T, const N: usize> LargeVector<T, N> {
    /// An iterator over references to the elements.
    pub fn iter<'a>(&'a self) -> (r: Iter<'a, T, N>)
        requires
            self@.len() == N,
        ensures
            r.remaining() == self@.map(|i, v| &v),
            r.decrease() is Some,
    {
        let r = Iter { data: self, current: 0, end: N };
        assert(self@.subrange(0, N as int) =~= self@);
        r
    }

    /// A cursor that lends out each element in turn for change in place.
    /// What is written through it is in the vector once the cursor is gone.
    pub fn iter_mut<'a>(&'a mut self) -> (r: IterMut<'a, T, N>)
        requires
            old(self)@.len() == N,
        ensures
            r.wf(),
            r.current == 0,
            r.data@ == old(self)@,
            *final(r.data) == *final(self),
    {
        IterMut { data: self, current: 0, end: N }
    }
}

impl<T: Copy, const N: usize> LargeVector<T, N> {
    /// An iterator that takes the vector and hands out its elements.
    pub fn into_iter(self) -> (r: IntoIter<T, N>)
        requires
            self@.len() == N,
        ensures
            r.remaining() == self@,
            r.decrease() is Some,
    {
        let r = IntoIter { data: self, current: 0, end: N };
        assert(self@.subrange(0, N as int) =~= self@);
        r
    }
}

/// Hands out the elements of a vector it owns, first to last.
pub struct IntoIter<T, const N: usize> {
    data: LargeVector<T, N>,
    current: usize,
    end: usize,
}

impl<T, const N: usize> IntoIter<T, N> {
    #[verifier::type_invariant]
    closed spec fn inv(self) -> bool {
        self.current <= self.end == N && self.data@.len() == N
    }
}

impl<T: Copy, const N: usize> Iterator for IntoIter<T, N> {
    type Item = T;

    fn next(&mut self) -> (r: Option<T>) {
        proof {
            use_type_invariant(&*self);
        }
        if self.current == self.end {
            None
        } else {
            let current = self.current;
            self.current += 1;
            Some(self.data.data[current])
        }
    }
}

impl<T: Copy, const N: usize> vstd::std_specs::iter::IteratorSpecImpl for IntoIter<T, N> {
    open spec fn obeys_prophetic_iter_laws(&self) -> bool {
        true
    }

    closed spec fn remaining(&self) -> Seq<Self::Item> {
        self.data@.subrange(self.current as int, self.end as int)
    }

    open spec fn will_return_none(&self) -> bool {
        true
    }

    closed spec fn decrease(&self) -> Option<nat> {
        Some((self.end - self.current) as nat)
    }

    closed spec fn initial_value_relation(&self, init: &Self) -> bool {
        self.data@ == init.data@
    }

    closed spec fn peek(&self, index: int) -> Option<Self::Item> {
        if 0 <= index < self.end - self.current {
            Some(self.data@[self.current + index])
        } else {
            None
        }
    }
}

impl<T: Copy, const N: usize> IntoIterator for LargeVector<T, N> {
    type Item = T;

    type IntoIter = IntoIter<T, N>;

    fn into_iter(self) -> (r: IntoIter<T, N>)
        requires
            self@.len() == N,
        ensures
            r.remaining() == self@,
            r.decrease() is Some,
    {
        let r = IntoIter { data: self, current: 0, end: N };
        assert(self@.subrange(0, N as int) =~= self@);
        r
    }
}

/// Hands out references to the elements of a vector, first to last.
pub struct Iter<'a, T, const N: usize> {
    data: &'a LargeVector<T, N>,
    current: usize,
    end: usize,
}

impl<'a, T, const N: usize> Iter<'a, T, N> {
    #[verifier::type_invariant]
    closed spec fn inv(self) -> bool {
        self.current <= self.end == N && self.data@.len() == N
    }
}

impl<'a, T, const N: usize> Iterator for Iter<'a, T, N> {
    type Item = &'a T;

    fn next(&mut self) -> (r: Option<&'a T>) {
        proof {
            use_type_invariant(&*self);
        }
        if self.current == self.end {
            None
        } else {
            let current = self.current;
            self.current += 1;
            Some(&self.data.data[current])
        }
    }
}

impl<'a, T, const N: usize> vstd::std_specs::iter::IteratorSpecImpl for Iter<'a, T, N> {
    open spec fn obeys_prophetic_iter_laws(&self) -> bool {
        true
    }

    closed spec fn remaining(&self) -> Seq<Self::Item> {
        self.data@.subrange(self.current as int, self.end as int).map(|i, v| &v)
    }

    open spec fn will_return_none(&self) -> bool {
        true
    }

    closed spec fn decrease(&self) -> Option<nat> {
        Some((self.end - self.current) as nat)
    }

    closed spec fn initial_value_relation(&self, init: &Self) -> bool {
        self.data@ == init.data@
    }

    closed spec fn peek(&self, index: int) -> Option<Self::Item> {
        if 0 <= index < self.end - self.current {
            Some(&self.data@[self.current + index])
        } else {
            None
        }
    }
}

impl<'a, T, const N: usize> IntoIterator for &'a LargeVector<T, N> {
    type Item = &'a T;

    type IntoIter = Iter<'a, T, N>;

    fn into_iter(self) -> (r: Iter<'a, T, N>)
        requires
            self@.len() == N,
        ensures
            r.remaining() == self@.map(|i, v| &v),
            r.decrease() is Some,
    {
        let r = Iter { data: self, current: 0, end: N };
        assert(self@.subrange(0, N as int) =~= self@);
        r
    }
}

/// A cursor over a vector that is borrowed mutably.
///
/// `next` lends out the element at `current` and moves on; the element can be
/// changed until `next` is called again. The fields are public because the
/// contracts speak of them.
pub struct IterMut<'a, T, const N: usize> {
    pub data: &'a mut LargeVector<T, N>,
    pub current: usize,
    pub end: usize,
}

impl<'a, T, const N: usize> IterMut<'a, T, N> {
    /// The cursor lies within a vector of `N` elements.
    pub open spec fn wf(&self) -> bool {
        self.current <= self.end == N && self.data@.len() == N
    }

    /// The next element, lent out mutably, or nothing once all were seen.
    pub fn next(&mut self) -> (r: Option<&mut T>)
        requires
            old(self).wf(),
        ensures
            final(self).wf(),
            *final(final(self).data) == *final(old(self).data),
            old(self).current == N ==> ({
                &&& r is None
                &&& final(self).current == N
                &&& final(self).data@ == old(self).data@
            }),
            old(self).current < N ==> ({
                &&& r is Some
                &&& final(self).current == old(self).current + 1
                &&& *r->0 == old(self).data@[old(self).current as int]
                &&& final(self).data@ == old(self).data@.update(
                    old(self).current as int,
                    *final(r->0),
                )
            }),
    {
        if self.current == self.end {
            None
        } else {
            let current = self.current;
            self.current += 1;
            Some(&mut self.data.data[current])
        }
    }
}

impl<T, const N: usize> LargeVector<T, N> {
    /// The heap vector of the `N` items that `iter` hands out.
    pub fn from_iter<I: Iterator<Item = T>>(iter: I) -> (r: Self)
        requires
            iter.obeys_prophetic_iter_laws(),
            iter.decrease() is Some,
            iter.remaining().len() == N,
        ensures
            r@ == iter.remaining(),
    {
        let mut collector: Vec<T> = Vec::with_capacity(N);
        let mut rest = iter;
        loop
            invariant
                rest.obeys_prophetic_iter_laws(),
                rest.decrease() is Some,
                collector@ + rest.remaining() == iter.remaining(),
            ensures
                collector@ == iter.remaining(),
            decreases rest.decrease()->0,
        {
            match rest.next() {
                Some(item) => {
                    collector.push(item);
                },
                None => {
                    break ;
                },
            }
        }
        LargeVector { data: collector }
    }
}

} // verus!
