use sickmath::vector::small_vector::SmallVector;

#[test]
fn math_ops_small_vector_add_vector() {
    let small_vector_1: SmallVector<u8, 4> = SmallVector { data: [1, 2, 3, 4] };

    let small_vector_2: SmallVector<u8, 4> = SmallVector { data: [5, 6, 7, 8] };

    let added_small_vector: SmallVector<u8, 4> = SmallVector {
        data: [6, 8, 10, 12],
    };

    assert_eq!(small_vector_1 + small_vector_2, added_small_vector);
}

#[test]
fn math_ops_small_vector_add_vector_mut() {
    let mut small_vector: SmallVector<u8, 4> = SmallVector { data: [1, 2, 3, 4] };

    let small_vector_2: SmallVector<u8, 4> = SmallVector { data: [5, 6, 7, 8] };

    small_vector += small_vector_2;

    let added_small_vector: SmallVector<u8, 4> = SmallVector {
        data: [6, 8, 10, 12],
    };
    assert_eq!(small_vector, added_small_vector);
}

#[test]
fn math_ops_small_vector_sub_vector() {
    let small_vector_1: SmallVector<u8, 4> = SmallVector { data: [5, 6, 7, 8] };

    let small_vector_2: SmallVector<u8, 4> = SmallVector { data: [1, 2, 3, 4] };

    let subtracted_small_vector: SmallVector<u8, 4> = SmallVector { data: [4, 4, 4, 4] };

    assert_eq!(small_vector_1 - small_vector_2, subtracted_small_vector);
}

#[test]
fn math_ops_small_vector_sub_vector_mut() {
    let mut small_vector: SmallVector<u8, 4> = SmallVector { data: [5, 6, 7, 8] };

    let small_vector_2: SmallVector<u8, 4> = SmallVector { data: [1, 2, 3, 4] };

    small_vector -= small_vector_2;

    let subtracted_small_vector: SmallVector<u8, 4> = SmallVector { data: [4, 4, 4, 4] };
    assert_eq!(small_vector, subtracted_small_vector);
}

#[test]
fn math_ops_small_vector_entrywise() {
    let small_vector_1: SmallVector<u8, 4> = SmallVector { data: [1, 2, 3, 4] };

    let small_vector_2: SmallVector<u8, 4> = SmallVector { data: [5, 6, 7, 8] };

    let multiplied_small_vector: SmallVector<u8, 4> = SmallVector {
        data: [5, 12, 21, 32],
    };

    assert_eq!(small_vector_1 * small_vector_2, multiplied_small_vector);
}

#[test]
fn math_ops_small_vector_entrywise_mut() {
    let mut small_vector: SmallVector<u8, 4> = SmallVector { data: [1, 2, 3, 4] };

    let small_vector_2: SmallVector<u8, 4> = SmallVector { data: [5, 6, 7, 8] };

    small_vector *= small_vector_2;

    let multiplied_small_vector: SmallVector<u8, 4> = SmallVector {
        data: [5, 12, 21, 32],
    };
    assert_eq!(small_vector, multiplied_small_vector);
}
