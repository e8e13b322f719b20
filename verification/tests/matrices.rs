use sickmath::vector::large_vector::LargeVector;
use sickmath::vector::small_vector::SmallVector;
use sickmath::{Matrix, Vector};

#[test]
fn matrices_are_built_row_by_row() {
    let from_arrays: Matrix<i32, 2, 3> = Matrix::new([[1, 2, 3], [4, 5, 6]]);
    let from_vecs: Matrix<i32, 2, 3> = Matrix::new(vec![vec![1, 2, 3], vec![4, 5, 6]]);
    let from_vectors: Matrix<i32, 2, 3> =
        Matrix::new([Vector::new([1, 2, 3]), Vector::new_large([4, 5, 6])]);
    let from_inline: Matrix<i32, 2, 3> =
        Matrix::new([SmallVector { data: [1, 2, 3] }, SmallVector { data: [4, 5, 6] }]);
    let from_heap: Matrix<i32, 2, 3> = Matrix::new(vec![
        LargeVector { data: vec![1, 2, 3] },
        LargeVector { data: vec![4, 5, 6] },
    ]);

    assert_eq!(from_arrays, from_vecs);
    assert_eq!(from_arrays, from_vectors);
    assert_eq!(from_arrays, from_inline);
    assert_eq!(from_arrays, from_heap);
    assert_eq!(from_arrays[0], Vector::new([1, 2, 3]));
    assert_eq!(from_arrays[1], Vector::new([4, 5, 6]));
    assert_eq!(from_vecs[1][2], 6);
}

#[test]
fn matrices_differ_when_one_element_differs() {
    let a: Matrix<i32, 2, 2> = Matrix::new([[1, 2], [3, 4]]);
    let b: Matrix<i32, 2, 2> = Matrix::new([[1, 2], [3, 5]]);
    let swapped: Matrix<i32, 2, 2> = Matrix::new([[3, 4], [1, 2]]);

    assert_ne!(a, b);
    assert_ne!(a, swapped);
}

#[test]
fn default_matrix_is_zero() {
    let zero: Matrix<u8, 2, 3> = Matrix::default();

    assert_eq!(zero, Matrix::new([[0, 0, 0], [0, 0, 0]]));
}

#[test]
fn transpose_swaps_rows_and_columns() {
    let matrix: Matrix<i32, 2, 3> = Matrix::new([[1, 2, 3], [4, 5, 6]]);

    let transposed: Matrix<i32, 3, 2> = matrix.transpose();

    assert_eq!(transposed, Matrix::new([[1, 4], [2, 5], [3, 6]]));
    assert_eq!(transposed.transpose(), matrix);
}

#[test]
fn rows_can_be_changed_in_place() {
    let mut matrix: Matrix<i32, 2, 2> = Matrix::new([[1, 2], [3, 4]]);

    matrix[1][0] = 30;
    matrix[0] = Vector::new_large([10, 20]);

    assert_eq!(matrix, Matrix::new([[10, 20], [30, 4]]));
}

#[test]
fn product_with_an_inner_dimension_other_than_the_columns() {
    let a: Matrix<i32, 2, 3> = Matrix::new([[1, 2, 3], [4, 5, 6]]);
    let b: Matrix<i32, 3, 2> = Matrix::new([[7, 8], [9, 10], [11, 12]]);
    let c: Matrix<i32, 3, 1> = Matrix::new([[1], [0], [-1]]);

    assert_eq!(a.mult(&b), Matrix::new([[58, 64], [139, 154]]));
    assert_eq!(a.mult_transposed(&b), Matrix::new([[58, 64], [139, 154]]));
    assert_eq!(a.mult(&c), Matrix::new([[-2], [-2]]));
}

#[test]
fn product_with_the_identity() {
    let a: Matrix<i64, 2, 2> = Matrix::new([[3, -4], [5, 6]]);
    let identity: Matrix<i64, 2, 2> = Matrix::new([[1, 0], [0, 1]]);

    assert_eq!(a.mult(&identity), a);
    assert_eq!(identity.mult(&a), a);
}

#[test]
fn sum_and_difference_are_entrywise() {
    let a: Matrix<i32, 2, 2> = Matrix::new([[1, 2], [3, 4]]);
    let b: Matrix<i32, 2, 2> = Matrix::new([[10, -20], [30, -40]]);

    assert_eq!(a.add(&b), Matrix::new([[11, -18], [33, -36]]));
    assert_eq!(a.subtract(&b), Matrix::new([[-9, 22], [-27, 44]]));
    assert_eq!(a.add(&b).subtract(&b), a);
}
