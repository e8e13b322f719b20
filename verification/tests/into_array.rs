use sickmath::vector::large_vector::into_vec::IntoVec;
use sickmath::vector::large_vector::LargeVector;
use sickmath::vector::small_vector::into_array::IntoArray;

#[test]
fn into_array_from_array() {
    let array = [1, 2, 3, 4];

    assert_eq!(array.into_array(), [1, 2, 3, 4]);
}

#[test]
fn into_array_from_vec() {
    let array = [1, 2, 3, 4];

    assert_eq!(array.into_vec(), [1, 2, 3, 4]);
}

#[test]
fn into_array_from_large_vector() {
    let large_vector = LargeVector {
        data: vec![1, 2, 3, 4],
    };

    assert_eq!(large_vector.into_array(), [1, 2, 3, 4]);
}
