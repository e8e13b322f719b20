//! The mathematics of the crate: what each operation computes, as functions on
//! sequences of integers, and the laws that relate them.
//!
//! A vector is modelled by the sequence of integers its elements stand for, a
//! matrix by the sequence of its rows.

use crate::element::{all_representable, Element};
use vstd::prelude::*;

verus! {

/// Every entry of `a` times `k`.
pub open spec fn scaled(a: Seq<int>, k: int) -> Seq<int> {
    Seq::new(a.len(), |i: int| a[i] * k)
}

/// Entry by entry, `a[i] + b[i]`.
pub open spec fn sum_of(a: Seq<int>, b: Seq<int>) -> Seq<int> {
    Seq::new(a.len(), |i: int| a[i] + b[i])
}

/// Entry by entry, `a[i] - b[i]`.
pub open spec fn difference_of(a: Seq<int>, b: Seq<int>) -> Seq<int> {
    Seq::new(a.len(), |i: int| a[i] - b[i])
}

/// Entry by entry, `a[i] * b[i]`.
pub open spec fn product_of(a: Seq<int>, b: Seq<int>) -> Seq<int> {
    Seq::new(a.len(), |i: int| a[i] * b[i])
}

/// `n` zeros.
pub open spec fn zeros(n: nat) -> Seq<int> {
    Seq::new(n, |i: int| 0int)
}

/// The sum of all entries.
pub open spec fn total(s: Seq<int>) -> int
    decreases s.len(),
{
    if s.len() == 0 {
        0
    } else {
        total(s.drop_last()) + s.last()
    }
}

/// The dot product: the sum of the entrywise products.
pub open spec fn dot(a: Seq<int>, b: Seq<int>) -> int {
    total(product_of(a, b))
}

/// The cross product of two vectors of three entries.
pub open spec fn cross(a: Seq<int>, b: Seq<int>) -> Seq<int> {
    seq![a[1] * b[2] - a[2] * b[1], a[2] * b[0] - a[0] * b[2], a[0] * b[1] - a[1] * b[0]]
}

/// The six products that the cross product is made of.
pub open spec fn cross_terms(a: Seq<int>, b: Seq<int>) -> Seq<int> {
    seq![a[1] * b[2], a[2] * b[1], a[2] * b[0], a[0] * b[2], a[0] * b[1], a[1] * b[0]]
}

/// The outer product of the first `rows` entries of `a` with `b`: entry
/// `[i][j]` is `a[i] * b[j]`.
pub open spec fn outer(a: Seq<int>, b: Seq<int>, rows: nat) -> Seq<Seq<int>> {
    Seq::new(rows, |i: int| Seq::new(b.len(), |j: int| a[i] * b[j]))
}

/// `r` is the integer square root of `n`, rounded down.
pub open spec fn is_floor_sqrt(r: int, n: int) -> bool {
    0 <= r && r * r <= n < (r + 1) * (r + 1)
}

/// Column `c` of a matrix, top to bottom.
pub open spec fn column(m: Seq<Seq<int>>, c: int) -> Seq<int> {
    Seq::new(m.len(), |k: int| m[k][c])
}

/// The transpose of a matrix of `cols` columns.
pub open spec fn transposed(m: Seq<Seq<int>>, cols: nat) -> Seq<Seq<int>> {
    Seq::new(cols, |c: int| column(m, c))
}

/// The product of `a` with a matrix `b` of `cols` columns: entry `[r][c]` is
/// the dot product of row `r` of `a` with column `c` of `b`.
pub open spec fn matrix_product(a: Seq<Seq<int>>, b: Seq<Seq<int>>, cols: nat) -> Seq<Seq<int>> {
    Seq::new(a.len(), |r: int| Seq::new(cols, |c: int| dot(a[r], column(b, c))))
}

/// Row by row, the entrywise sum.
pub open spec fn matrix_sum(a: Seq<Seq<int>>, b: Seq<Seq<int>>) -> Seq<Seq<int>> {
    Seq::new(a.len(), |r: int| sum_of(a[r], b[r]))
}

/// Row by row, the entrywise difference.
pub open spec fn matrix_difference(a: Seq<Seq<int>>, b: Seq<Seq<int>>) -> Seq<Seq<int>> {
    Seq::new(a.len(), |r: int| difference_of(a[r], b[r]))
}

/// A sum that is built up entry by entry in `T` never leaves `T`: the total of
/// every prefix of `s` can be stored.
pub open spec fn accumulates_in<T: Element>(s: Seq<int>) -> bool {
    forall|k: int| 0 <= k <= s.len() ==> T::representable(total(#[trigger] s.take(k)))
}

/// One entry of a matrix product can be computed in `T`: each product of the
/// row with the column can be stored, and so can every sum on the way.
pub open spec fn entry_computable<T: Element>(row: Seq<int>, col: Seq<int>) -> bool {
    all_representable::<T>(product_of(row, col)) && accumulates_in::<T>(product_of(row, col))
}

/// Every entry of the product of `a` with `b` can be computed in `T`.
pub open spec fn product_computable<T: Element>(
    a: Seq<Seq<int>>,
    b: Seq<Seq<int>>,
    cols: nat,
) -> bool {
    forall|r: int, c: int|
        0 <= r < a.len() && 0 <= c < cols ==> #[trigger] entry_computable::<T>(a[r], column(b, c))
}

/// Every entry of the product of `a` with `b` fits the wide signed integer.
pub open spec fn product_fits_isize(a: Seq<Seq<int>>, b: Seq<Seq<int>>, cols: nat) -> bool {
    forall|r: int, c: int|
        0 <= r < a.len() && 0 <= c < cols ==> isize::MIN <= #[trigger] dot(a[r], column(b, c))
            <= isize::MAX
}

/// From this many entries on, a product is computed through the transpose
/// of its right operand.
pub const TRANSPOSE_THRESHOLD: usize = 240_000;

/// Whether a product of `rows` by `cols` entries is computed through the
/// transpose.
pub open spec fn uses_transpose(rows: nat, cols: nat) -> bool {
    rows * cols >= TRANSPOSE_THRESHOLD
}

/// Adding one more entry to a prefix adds that entry to its total.
pub proof fn lemma_total_step(s: Seq<int>, k: int)
    requires
        0 <= k < s.len(),
    ensures
        total(s.take(k + 1)) == total(s.take(k)) + s[k],
{
    assert(s.take(k + 1).drop_last() =~= s.take(k));
}

/// The total of the whole sequence is the total of its longest prefix.
pub proof fn lemma_total_all(s: Seq<int>)
    ensures
        total(s.take(s.len() as int)) == total(s),
{
    assert(s.take(s.len() as int) =~= s);
}

/// A sum of squares is not negative.
pub proof fn lemma_squares_total_nonnegative(a: Seq<int>)
    ensures
        0 <= total(product_of(a, a)),
    decreases a.len(),
{
    let s = product_of(a, a);
    if s.len() > 0 {
        assert(s.drop_last() =~= product_of(a.drop_last(), a.drop_last()));
        lemma_squares_total_nonnegative(a.drop_last());
        assert(0 <= a.last() * a.last()) by (nonlinear_arith);
    }
}

/// Vector addition commutes.
pub proof fn lemma_sum_commutes(a: Seq<int>, b: Seq<int>)
    requires
        a.len() == b.len(),
    ensures
        sum_of(a, b) == sum_of(b, a),
{
    assert(sum_of(a, b) =~= sum_of(b, a));
}

/// Subtracting what was added gives back the vector one started from.
pub proof fn lemma_sum_then_difference(a: Seq<int>, b: Seq<int>)
    requires
        a.len() == b.len(),
    ensures
        difference_of(sum_of(a, b), b) == a,
{
    assert(difference_of(sum_of(a, b), b) =~= a);
}

/// Scaling by one changes nothing.
pub proof fn lemma_scaled_by_one(a: Seq<int>)
    ensures
        scaled(a, 1) == a,
{
    assert(scaled(a, 1) =~= a);
}

/// Scaling by zero gives the zero vector.
pub proof fn lemma_scaled_by_zero(a: Seq<int>)
    ensures
        scaled(a, 0) == zeros(a.len()),
{
    assert(scaled(a, 0) =~= zeros(a.len()));
}

/// The dot product commutes.
pub proof fn lemma_dot_commutes(a: Seq<int>, b: Seq<int>)
    requires
        a.len() == b.len(),
    ensures
        dot(a, b) == dot(b, a),
{
    assert forall|i: int| 0 <= i < a.len() implies product_of(a, b)[i] == product_of(b, a)[i] by {
        assert(a[i] * b[i] == b[i] * a[i]) by (nonlinear_arith);
    }
    assert(product_of(a, b) =~= product_of(b, a));
}

/// The cross product is anti-commutative: swapping the operands negates it.
pub proof fn lemma_cross_anticommutes(a: Seq<int>, b: Seq<int>)
    requires
        a.len() == 3,
        b.len() == 3,
    ensures
        cross(a, b) == scaled(cross(b, a), -1),
{
    let l = cross(a, b);
    let r = scaled(cross(b, a), -1);
    assert(l[0] == r[0]) by (nonlinear_arith)
        requires
            l[0] == a[1] * b[2] - a[2] * b[1],
            r[0] == (b[1] * a[2] - b[2] * a[1]) * -1,
    ;
    assert(l[1] == r[1]) by (nonlinear_arith)
        requires
            l[1] == a[2] * b[0] - a[0] * b[2],
            r[1] == (b[2] * a[0] - b[0] * a[2]) * -1,
    ;
    assert(l[2] == r[2]) by (nonlinear_arith)
        requires
            l[2] == a[0] * b[1] - a[1] * b[0],
            r[2] == (b[0] * a[1] - b[1] * a[0]) * -1,
    ;
    assert(l =~= r);
}

/// The rows of the transpose are the columns, so an entry of the product is
/// the dot product of a row of the left operand with a row of the right
/// operand's transpose: computing a product entry by entry and computing it
/// through the transpose give the same matrix.
pub proof fn lemma_product_by_transposed_rows(
    a: Seq<Seq<int>>,
    b: Seq<Seq<int>>,
    cols: nat,
    r: int,
    c: int,
)
    requires
        0 <= r < a.len(),
        0 <= c < cols,
    ensures
        matrix_product(a, b, cols)[r][c] == dot(a[r], transposed(b, cols)[c]),
{
}

} // verus!
