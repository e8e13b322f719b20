//! The numbers that vectors and matrices hold.
//!
//! An [`Element`] is a machine number that stands for a mathematical integer.
//! Every contract of the crate is stated over those integers; the machine type
//! only decides which of them can be stored.

use vstd::prelude::*;

pub mod signed;
pub mod unsigned;

verus! {

/// A number type that can be held in a vector.
///
/// `value` gives the integer an element stands for and `representable` the
/// integers that some element stands for. Arithmetic is exact: each operation
/// demands that its result is representable and then returns the element
/// that stands for it.
pub trait Element: Copy + Sized {
    /// The integer this element stands for.
    spec fn value(self) -> int;

    /// Whether some element of the type stands for `v`.
    spec fn representable(v: int) -> bool;

    /// What an element stands for is representable.
    proof fn lemma_value_representable(self)
        ensures
            Self::representable(self.value()),
    ;

    /// Two elements that stand for the same integer are the same element.
    proof fn lemma_value_injective(a: Self, b: Self)
        requires
            a.value() == b.value(),
        ensures
            a == b,
    ;

    /// Zero and one can be stored.
    proof fn lemma_zero_and_one_representable()
        ensures
            Self::representable(0),
            Self::representable(1),
    ;

    /// The element that stands for zero.
    fn zero() -> (r: Self)
        ensures
            r.value() == 0,
    ;

    /// An element drawn from the thread's random source; any element may come back.
    fn random() -> (r: Self);

    /// The element that stands for `n`, where there is one.
    fn from_isize(n: isize) -> (r: Option<Self>)
        ensures
            r is Some <==> Self::representable(n as int),
            r matches Some(e) ==> e.value() == n,
    ;

    /// The element's integer as an `isize`, where it fits.
    fn to_isize(self) -> (r: Option<isize>)
        ensures
            r is Some <==> isize::MIN <= self.value() <= isize::MAX,
            r matches Some(n) ==> n == self.value(),
    ;

    /// The element's integer as a `usize`, where it fits.
    fn to_usize(self) -> (r: Option<usize>)
        ensures
            r is Some <==> 0 <= self.value() <= usize::MAX,
            r matches Some(n) ==> n == self.value(),
    ;

    /// Exact sum.
    fn plus(self, rhs: Self) -> (r: Self)
        requires
            Self::representable(self.value() + rhs.value()),
        ensures
            r.value() == self.value() + rhs.value(),
    ;

    /// Exact difference.
    fn minus(self, rhs: Self) -> (r: Self)
        requires
            Self::representable(self.value() - rhs.value()),
        ensures
            r.value() == self.value() - rhs.value(),
    ;

    /// Exact product.
    fn times(self, rhs: Self) -> (r: Self)
        requires
            Self::representable(self.value() * rhs.value()),
        ensures
            r.value() == self.value() * rhs.value(),
    ;

    /// Whether two elements are the same.
    fn same(self, rhs: Self) -> (r: bool)
        ensures
            r == (self == rhs),
    ;
}

/// The integers that a sequence of elements stands for.
pub open spec fn values_of<T: Element>(s: Seq<T>) -> Seq<int> {
    Seq::new(s.len(), |i: int| s[i].value())
}

/// Every integer of `s` can be stored in `T`.
pub open spec fn all_representable<T: Element>(s: Seq<int>) -> bool {
    forall|i: int| 0 <= i < s.len() ==> T::representable(#[trigger] s[i])
}

/// Every integer of every row of `m` can be stored in `T`.
pub open spec fn all_rows_representable<T: Element>(m: Seq<Seq<int>>) -> bool {
    forall|r: int| 0 <= r < m.len() ==> all_representable::<T>(#[trigger] m[r])
}

/// Sequences of elements that stand for the same integers are the same sequence.
pub proof fn lemma_values_injective<T: Element>(a: Seq<T>, b: Seq<T>)
    requires
        values_of(a) == values_of(b),
    ensures
        a == b,
{
    assert(a.len() == values_of(a).len());
    assert(b.len() == values_of(b).len());
    assert forall|i: int| 0 <= i < a.len() implies a[i] == b[i] by {
        assert(values_of(a)[i] == a[i].value());
        assert(values_of(b)[i] == b[i].value());
        T::lemma_value_injective(a[i], b[i]);
    }
    assert(a =~= b);
}

/// What a sequence of elements stands for can be stored.
pub proof fn lemma_values_representable<T: Element>(a: Seq<T>)
    ensures
        all_representable::<T>(values_of(a)),
{
    assert forall|i: int| 0 <= i < values_of(a).len() implies T::representable(
        #[trigger] values_of(a)[i],
    ) by {
        a[i].lemma_value_representable();
    }
}

/// `count` elements drawn one after another from the thread's random source,
/// in the order in which they were drawn. Any elements may come back; what is
/// made of them is decided by the function they are handed to.
pub fn random_elements<T: Element>(count: usize) -> (r: Vec<T>)
    ensures
        r@.len() == count,
{
    let mut draws: Vec<T> = Vec::with_capacity(count);
    let mut idx: usize = 0;
    while idx < count
        invariant
            idx <= count,
            draws@.len() == idx,
        decreases count - idx,
    {
        draws.push(T::random());
        idx += 1;
    }
    draws
}

} // verus!
