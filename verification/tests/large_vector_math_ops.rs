use sickmath::vector::large_vector::LargeVector;

#[test]
fn math_ops_large_vector_add_vector() {
    let large_vector_1: LargeVector<u8, 4> = LargeVector {
        data: vec![1, 2, 3, 4],
    };

    let large_vector_2: LargeVector<u8, 4> = LargeVector {
        data: vec![5, 6, 7, 8],
    };

    let added_large_vector: LargeVector<u8, 4> = LargeVector {
        data: vec![6, 8, 10, 12],
    };

    assert_eq!(large_vector_1 + large_vector_2, added_large_vector);
}

#[test]
fn math_ops_large_vector_add_vector_mut() {
    let mut large_vector: LargeVector<u8, 4> = LargeVector {
        data: vec![1, 2, 3, 4],
    };

    let large_vector_2: LargeVector<u8, 4> = LargeVector {
        data: vec![5, 6, 7, 8],
    };

    large_vector += large_vector_2;

    let added_large_vector: LargeVector<u8, 4> = LargeVector {
        data: vec![6, 8, 10, 12],
    };
    assert_eq!(large_vector, added_large_vector);
}

#[test]
fn math_ops_large_vector_sub_vector() {
    let large_vector_1: LargeVector<u8, 4> = LargeVector {
        data: vec![5, 6, 7, 8],
    };

    let large_vector_2: LargeVector<u8, 4> = LargeVector {
        data: vec![1, 2, 3, 4],
    };

    let subtracted_large_vector: LargeVector<u8, 4> = LargeVector {
        data: vec![4, 4, 4, 4],
    };

    assert_eq!(large_vector_1 - large_vector_2, subtracted_large_vector);
}

#[test]
fn math_ops_large_vector_sub_vector_mut() {
    let mut large_vector: LargeVector<u8, 4> = LargeVector {
        data: vec![5, 6, 7, 8],
    };

    let large_vector_2: LargeVector<u8, 4> = LargeVector {
        data: vec![1, 2, 3, 4],
    };

    large_vector -= large_vector_2;

    let subtracted_large_vector: LargeVector<u8, 4> = LargeVector {
        data: vec![4, 4, 4, 4],
    };
    assert_eq!(large_vector, subtracted_large_vector);
}

#[test]
fn math_ops_large_vector_entrywise() {
    let large_vector_1: LargeVector<u8, 4> = LargeVector {
        data: vec![1, 2, 3, 4],
    };

    let large_vector_2: LargeVector<u8, 4> = LargeVector {
        data: vec![5, 6, 7, 8],
    };

    let multiplied_large_vector: LargeVector<u8, 4> = LargeVector {
        data: vec![5, 12, 21, 32],
    };

    assert_eq!(large_vector_1 * large_vector_2, multiplied_large_vector);
}

#[test]
fn math_ops_large_vector_entrywise_mut() {
    let mut large_vector: LargeVector<u8, 4> = LargeVector {
        data: vec![1, 2, 3, 4],
    };

    let large_vector_2: LargeVector<u8, 4> = LargeVector {
        data: vec![5, 6, 7, 8],
    };

    large_vector *= large_vector_2;

    let multiplied_large_vector: LargeVector<u8, 4> = LargeVector {
        data: vec![5, 12, 21, 32],
    };
    assert_eq!(large_vector, multiplied_large_vector);
}
