use sickmath::vector::large_vector::LargeVector;
use sickmath::vector::small_vector::SmallVector;
use sickmath::{MathVector, Matrix, Vector};

#[test]
fn addition_commutes() {
    let a: Vector<i32, 4> = Vector::new([1, -2, 3, 40]);
    let b: Vector<i32, 4> = Vector::new_large(vec![5, 6, -7, 8]);

    assert_eq!(a.add_vector(&b), b.add_vector(&a));
    assert_eq!(a.add_vector(&b), Vector::new([6, 4, -4, 48]));
}

#[test]
fn subtracting_what_was_added_restores_the_vector() {
    let a: Vector<u8, 4> = Vector::new([1, 2, 3, 4]);
    let b: Vector<u8, 4> = Vector::new([250, 6, 7, 8]);

    assert_eq!(a.add_vector(&b).sub_vector(&b), a);
}

#[test]
fn scaling_by_one_changes_nothing() {
    let a: Vector<i16, 3> = Vector::new([-300, 0, 12]);

    assert_eq!(a.scalar(1), a);
}

#[test]
fn scaling_by_zero_gives_the_zero_vector() {
    let a: Vector<i16, 3> = Vector::new([-300, 0, 12]);

    assert_eq!(a.scalar(0), Vector::default());
    assert_eq!(a.scalar(0), Vector::new([0, 0, 0]));
}

#[test]
fn dot_product_commutes() {
    let a: SmallVector<i64, 3> = SmallVector { data: [2, -3, 5] };
    let b: LargeVector<i64, 3> = LargeVector { data: vec![7, 11, -13] };

    assert_eq!(a.dot(&b), b.dot(&a));
    assert_eq!(a.dot(&b), 14 - 33 - 65);
}

#[test]
fn cross_product_is_anticommutative() {
    let a: Vector<i32, 3> = Vector::new([1, 2, 3]);
    let b: Vector<i32, 3> = Vector::new([4, 5, 6]);

    assert_eq!(a.cross(&b), b.cross(&a).scalar(-1));
    assert_eq!(b.cross(&a), Vector::new([3, -6, 3]));
}

#[test]
fn in_place_forms_agree_on_inline_storage() {
    let x: SmallVector<i32, 3> = SmallVector { data: [1, 2, 3] };
    let y: SmallVector<i32, 3> = SmallVector { data: [4, 5, 6] };

    let mut scaled = x.clone();
    scaled.scalar_mut(-4);
    assert_eq!(x.scalar(-4), scaled);

    let mut added = x.clone();
    added.add_vector_mut(&y);
    assert_eq!(x.add_vector(&y), added);

    let mut subtracted = x.clone();
    subtracted.sub_vector_mut(&y);
    assert_eq!(x.sub_vector(&y), subtracted);

    let mut multiplied = x.clone();
    multiplied.entrywise_mut(&y);
    assert_eq!(x.entrywise(&y), multiplied);

    let mut crossed = x.clone();
    crossed.cross_mut(&y);
    assert_eq!(x.cross(&y), crossed);
}

#[test]
fn in_place_forms_agree_on_heap_storage() {
    let x: LargeVector<i32, 3> = LargeVector { data: vec![1, 2, 3] };
    let y: LargeVector<i32, 3> = LargeVector { data: vec![4, 5, 6] };

    let mut scaled = x.clone();
    scaled.scalar_mut(-4);
    assert_eq!(x.scalar(-4), scaled);

    let mut added = x.clone();
    added.add_vector_mut(&y);
    assert_eq!(x.add_vector(&y), added);

    let mut subtracted = x.clone();
    subtracted.sub_vector_mut(&y);
    assert_eq!(x.sub_vector(&y), subtracted);

    let mut multiplied = x.clone();
    multiplied.entrywise_mut(&y);
    assert_eq!(x.entrywise(&y), multiplied);

    let mut crossed = x.clone();
    crossed.cross_mut(&y);
    assert_eq!(x.cross(&y), crossed);
}

#[test]
fn in_place_forms_agree_on_either_storage() {
    let x: Vector<i32, 3> = Vector::new_large([1, 2, 3]);
    let y: Vector<i32, 3> = Vector::new([4, 5, 6]);

    let mut scaled = x.clone();
    scaled.scalar_mut(7);
    assert_eq!(x.scalar(7), scaled);

    let mut added = x.clone();
    added.add_vector_mut(&y);
    assert_eq!(x.add_vector(&y), added);

    let mut subtracted = x.clone();
    subtracted.sub_vector_mut(&y);
    assert_eq!(x.sub_vector(&y), subtracted);

    let mut multiplied = x.clone();
    multiplied.entrywise_mut(&y);
    assert_eq!(x.entrywise(&y), multiplied);

    let mut crossed = x.clone();
    crossed.cross_mut(&y);
    assert_eq!(x.cross(&y), crossed);
}

#[test]
fn both_product_regimes_agree_on_a_small_product() {
    let a: Matrix<i32, 3, 2> = Matrix::new([[1, 2], [3, 4], [5, 6]]);
    let b: Matrix<i32, 2, 4> = Matrix::new([[3, 1, -2, 0], [9, 6, 7, -1]]);

    let direct = a.mult_direct(&b);
    let through_transpose = a.mult_transposed(&b);

    assert_eq!(direct, through_transpose);
    assert_eq!(a.mult(&b), direct);
    assert_eq!(
        direct,
        Matrix::new([[21, 13, 12, -2], [45, 27, 22, -4], [69, 41, 32, -6]])
    );
}

#[test]
fn product_just_below_the_threshold_matches_both_regimes() {
    let mut left_rows: Vec<Vec<u8>> = Vec::new();
    for r in 0..599usize {
        left_rows.push(vec![(r % 3) as u8]);
    }
    let mut right_row: Vec<u8> = Vec::new();
    for c in 0..400usize {
        right_row.push((c % 5) as u8);
    }
    let a: Matrix<u8, 599, 1> = Matrix::new(left_rows);
    let b: Matrix<u8, 1, 400> = Matrix::new(vec![right_row]);

    let product = a.mult(&b);

    assert_eq!(product, a.mult_direct(&b));
    assert_eq!(product, a.mult_transposed(&b));
    assert_eq!(product[598][399], 1 * 4);
    assert_eq!(product[2][3], 2 * 3);
}

#[test]
fn product_at_the_threshold_matches_both_regimes() {
    let mut left_rows: Vec<Vec<u8>> = Vec::new();
    for r in 0..600usize {
        left_rows.push(vec![(r % 3) as u8]);
    }
    let mut right_row: Vec<u8> = Vec::new();
    for c in 0..400usize {
        right_row.push((c % 5) as u8);
    }
    let a: Matrix<u8, 600, 1> = Matrix::new(left_rows);
    let b: Matrix<u8, 1, 400> = Matrix::new(vec![right_row]);

    let product = a.mult(&b);

    assert_eq!(product, a.mult_direct(&b));
    assert_eq!(product, a.mult_transposed(&b));
    assert_eq!(product[599][399], 2 * 4);
    assert_eq!(product[2][3], 2 * 3);
}
