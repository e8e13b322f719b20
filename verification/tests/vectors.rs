use sickmath::element::random_elements;
use sickmath::vector::large_vector::LargeVector;
use sickmath::vector::small_vector::SmallVector;
use sickmath::{MathVector, Matrix, Vector};

#[test]
fn plain_construction_is_inline() {
    let vector: Vector<u8, 3> = Vector::new([1, 2, 3]);

    assert!(matches!(vector, Vector::Small(_)));
    assert_eq!(vector[0], 1);
    assert_eq!(vector[2], 3);
}

#[test]
fn inline_construction_from_a_vec_keeps_the_order() {
    let vector: Vector<u8, 4> = Vector::new(vec![9, 8, 7, 6]);

    assert!(matches!(vector, Vector::Small(_)));
    assert_eq!(vector, Vector::new([9, 8, 7, 6]));
    assert_ne!(vector, Vector::new([6, 7, 8, 9]));
}

#[test]
fn heap_construction_is_on_the_heap() {
    let from_vec: Vector<u16, 3> = Vector::new_large(vec![1, 2, 3]);
    let from_array: Vector<u16, 3> = Vector::new_large([1, 2, 3]);
    let from_inline: Vector<u16, 3> = Vector::new_large(SmallVector { data: [1, 2, 3] });

    assert!(matches!(from_vec, Vector::Large(_)));
    assert!(matches!(from_array, Vector::Large(_)));
    assert!(matches!(from_inline, Vector::Large(_)));
    assert_eq!(from_vec, from_array);
    assert_eq!(from_vec, from_inline);
}

#[test]
fn inline_construction_from_a_heap_vector() {
    let heap: LargeVector<i8, 3> = LargeVector { data: vec![-1, 0, 1] };
    let inline: SmallVector<i8, 3> = SmallVector::new(heap);

    assert_eq!(inline.data, [-1, 0, 1]);
}

#[test]
fn equality_ignores_the_storage() {
    let inline: Vector<i32, 3> = Vector::new([1, 2, 3]);
    let heap: Vector<i32, 3> = Vector::new_large(vec![1, 2, 3]);
    let other: Vector<i32, 3> = Vector::new_large(vec![1, 2, 4]);

    assert_eq!(inline, heap);
    assert_eq!(heap, inline);
    assert_ne!(inline, other);
}

#[test]
fn random_construction_is_inline_up_to_the_limit() {
    let vector: Vector<u8, 5000> = Vector::new_random();

    assert!(matches!(vector, Vector::Small(_)));
    assert_eq!(vector.len(), 5000);
}

#[test]
fn random_construction_is_on_the_heap_beyond_the_limit() {
    let vector: Vector<u8, 5001> = Vector::new_random();

    assert!(matches!(vector, Vector::Large(_)));
    assert_eq!(vector.len(), 5001);
}

#[test]
fn random_heap_construction_is_on_the_heap() {
    let vector: Vector<i64, 3> = Vector::new_large_random();
    let heap: LargeVector<i64, 7> = LargeVector::new_random();

    assert!(matches!(vector, Vector::Large(_)));
    assert_eq!(vector.len(), 3);
    assert_eq!(heap.data.len(), 7);
}

#[test]
fn default_vectors_are_zero() {
    let unified: Vector<i32, 4> = Vector::default();
    let inline: SmallVector<i32, 4> = SmallVector::default();
    let heap: LargeVector<i32, 4> = LargeVector::default();

    assert!(matches!(unified, Vector::Small(_)));
    assert_eq!(inline.data, [0, 0, 0, 0]);
    assert_eq!(heap.data, vec![0, 0, 0, 0]);
    assert_eq!(unified, Vector::new([0, 0, 0, 0]));
}

#[test]
fn operations_keep_the_storage() {
    let inline: Vector<i32, 3> = Vector::new([1, 2, 3]);
    let heap: Vector<i32, 3> = Vector::new_large(vec![4, 5, 6]);

    assert!(matches!(inline.add_vector(&heap), Vector::Small(_)));
    assert!(matches!(heap.add_vector(&inline), Vector::Large(_)));
    assert!(matches!(inline.scalar(2), Vector::Small(_)));
    assert!(matches!(heap.scalar(2), Vector::Large(_)));
    assert!(matches!(heap.cross(&inline), Vector::Large(_)));
    assert!(matches!(inline.entrywise(&heap), Vector::Small(_)));
    assert!(matches!(heap.sub_vector(&inline), Vector::Large(_)));
}

#[test]
fn unified_vector_operations() {
    let a: Vector<u8, 4> = Vector::new([1, 2, 3, 4]);
    let b: Vector<u8, 4> = Vector::new_large([5, 6, 7, 8]);

    assert_eq!(a.dot(&b), 70);
    assert_eq!(a.entrywise(&b), Vector::new([5, 12, 21, 32]));
    assert_eq!(a.add_vector(&b), Vector::new([6, 8, 10, 12]));
    assert_eq!(b.sub_vector(&a), Vector::new([4, 4, 4, 4]));
    assert_eq!(a.scalar(3), Vector::new([3, 6, 9, 12]));
    assert_eq!(a.sum(), 10);
    assert_eq!(b.sum(), 26);
    assert_eq!(b.magnitude(), 13);
}

#[test]
fn unified_vector_operators() {
    let a: Vector<u8, 4> = Vector::new([1, 2, 3, 4]);
    let b: Vector<u8, 4> = Vector::new_large([5, 6, 7, 8]);

    assert_eq!(a.clone() + b.clone(), Vector::new([6, 8, 10, 12]));
    assert_eq!(b.clone() - a.clone(), Vector::new([4, 4, 4, 4]));
    assert_eq!(a.clone() * b.clone(), Vector::new([5, 12, 21, 32]));

    let mut sum = b.clone();
    sum += a.clone();
    assert_eq!(sum, Vector::new([6, 8, 10, 12]));
    assert!(matches!(sum, Vector::Large(_)));

    let mut difference = b.clone();
    difference -= a.clone();
    assert_eq!(difference, Vector::new([4, 4, 4, 4]));

    let mut product = a.clone();
    product *= b.clone();
    assert_eq!(product, Vector::new([5, 12, 21, 32]));
}

#[test]
fn cross_product_of_unified_vectors() {
    let a: Vector<i8, 3> = Vector::new([1, 2, 3]);
    let b: Vector<i8, 3> = Vector::new_large([4, 5, 6]);

    assert_eq!(a.cross(&b), Vector::new([-3, 6, -3]));

    let mut in_place = a.clone();
    in_place.cross_mut(b);
    assert_eq!(in_place, Vector::new([-3, 6, -3]));
}

#[test]
fn magnitude_rounds_down() {
    let two: SmallVector<i8, 2> = SmallVector { data: [2, 2] };
    let exact: SmallVector<i32, 2> = SmallVector { data: [3, -4] };
    let ones: LargeVector<u8, 3> = LargeVector { data: vec![1, 1, 1] };
    let zero: Vector<u8, 3> = Vector::default();
    let large: SmallVector<u64, 2> = SmallVector { data: [3_000_000, 4_000_000] };

    assert_eq!(two.magnitude(), 2);
    assert_eq!(exact.magnitude(), 5);
    assert_eq!(ones.magnitude(), 1);
    assert_eq!(zero.magnitude(), 0);
    assert_eq!(large.magnitude(), 5_000_000);
}

#[test]
fn empty_vectors() {
    let empty: Vector<i32, 0> = Vector::new([]);
    let other: Vector<i32, 0> = Vector::new_large(vec![]);

    assert_eq!(empty.sum(), 0);
    assert_eq!(empty.dot(&other), 0);
    assert_eq!(empty.magnitude(), 0);
    assert_eq!(empty.add_vector(&other), other);
    assert_eq!(empty.len(), 0);
}

#[test]
fn tensor_product_of_the_first_rows() {
    let a: Vector<i32, 3> = Vector::new([1, -2, 3]);
    let b: Vector<i32, 3> = Vector::new_large([4, 5, 6]);

    let square: Matrix<i32, 3, 3> = a.tensor_prod(&b);
    let top: Matrix<i32, 2, 3> = a.tensor_prod(&b);
    let none: Matrix<i32, 0, 3> = a.tensor_prod(&b);

    assert_eq!(square, Matrix::new([[4, 5, 6], [-8, -10, -12], [12, 15, 18]]));
    assert_eq!(top, Matrix::new([[4, 5, 6], [-8, -10, -12]]));
    assert_eq!(none, Matrix::default());
}

#[test]
fn indexing_reads_and_writes() {
    let mut inline: SmallVector<u8, 3> = SmallVector { data: [1, 2, 3] };
    let mut heap: LargeVector<u8, 3> = LargeVector { data: vec![4, 5, 6] };
    let mut unified: Vector<u8, 3> = Vector::new([7, 8, 9]);

    inline[1] = 20;
    heap[2] = 60;
    unified[0] = 70;

    assert_eq!(inline[0], 1);
    assert_eq!(inline.data, [1, 20, 3]);
    assert_eq!(heap[0], 4);
    assert_eq!(heap.data, vec![4, 5, 60]);
    assert_eq!(unified[1], 8);
    assert_eq!(unified, Vector::new([70, 8, 9]));
}

#[test]
fn conversions_to_array_and_vec() {
    let inline: SmallVector<u8, 3> = SmallVector { data: [1, 2, 3] };
    let heap: LargeVector<u8, 3> = LargeVector { data: vec![4, 5, 6] };

    assert_eq!(inline.clone().to_vec(), vec![1, 2, 3]);
    assert_eq!(inline.to_array(), [1, 2, 3]);
    assert_eq!(heap.clone().to_vec(), vec![4, 5, 6]);
    assert_eq!(heap.to_array(), [4, 5, 6]);
}

#[test]
fn inline_vector_dereferences_to_its_array() {
    let inline: SmallVector<u8, 3> = SmallVector { data: [1, 2, 3] };

    assert_eq!(*inline, [1, 2, 3]);
    assert_eq!(inline.iter().copied().max(), Some(3));
}

#[test]
fn clones_are_equal() {
    let inline: SmallVector<u8, 3> = SmallVector { data: [1, 2, 3] };
    let heap: LargeVector<u8, 3> = LargeVector { data: vec![4, 5, 6] };
    let unified: Vector<u8, 3> = Vector::new_large([7, 8, 9]);

    assert_eq!(inline.clone(), inline);
    assert_eq!(heap.clone(), heap);
    assert_eq!(unified.clone(), unified);
    assert!(matches!(unified.clone(), Vector::Large(_)));
}

#[test]
fn iteration_by_value_goes_first_to_last() {
    let unified: Vector<u8, 3> = Vector::new([1, 2, 3]);
    let heap: LargeVector<u8, 3> = LargeVector { data: vec![4, 5, 6] };

    let from_unified: Vec<u8> = unified.into_iter().collect();
    let from_heap: Vec<u8> = heap.into_iter().collect();

    assert_eq!(from_unified, vec![1, 2, 3]);
    assert_eq!(from_heap, vec![4, 5, 6]);
}

#[test]
fn iteration_by_reference_goes_first_to_last() {
    let unified: Vector<u8, 3> = Vector::new_large([1, 2, 3]);
    let heap: LargeVector<u8, 3> = LargeVector { data: vec![4, 5, 6] };

    let mut seen: Vec<u8> = Vec::new();
    for element in &unified {
        seen.push(*element);
    }
    for element in heap.iter() {
        seen.push(*element);
    }

    assert_eq!(seen, vec![1, 2, 3, 4, 5, 6]);
}

#[test]
fn iteration_restarts_from_the_first_element() {
    let unified: Vector<u8, 3> = Vector::new([1, 2, 3]);

    let mut first = unified.iter();
    assert_eq!(first.next(), Some(&1));
    assert_eq!(first.next(), Some(&2));

    let mut second = unified.iter();
    assert_eq!(second.next(), Some(&1));
    assert_eq!(first.next(), Some(&3));
    assert_eq!(first.next(), None);
    assert_eq!(first.next(), None);
}

#[test]
fn mutable_iteration_changes_the_elements_in_place() {
    let mut unified: Vector<u8, 3> = Vector::new([1, 2, 3]);
    let mut heap: LargeVector<u8, 3> = LargeVector { data: vec![4, 5, 6] };

    let mut cursor = unified.iter_mut();
    while let Some(element) = cursor.next() {
        *element *= 10;
    }
    let mut cursor = heap.iter_mut();
    while let Some(element) = cursor.next() {
        *element += 1;
    }

    assert_eq!(unified, Vector::new([10, 20, 30]));
    assert_eq!(heap.data, vec![5, 6, 7]);
}

#[test]
fn vectors_are_built_from_iterators() {
    let unified: Vector<u8, 4> = Vector::from_iter(vec![1, 2, 3, 4].into_iter());
    let heap: LargeVector<u8, 4> = LargeVector::from_iter((1..5).map(|n: u8| n * 2));

    assert!(matches!(unified, Vector::Small(_)));
    assert_eq!(unified, Vector::new([1, 2, 3, 4]));
    assert_eq!(heap.data, vec![2, 4, 6, 8]);
}

#[test]
fn draws_are_kept_in_their_order() {
    let vector: Vector<i32, 4> = Vector::from_draws(vec![7, -9, 0, 12]);

    assert!(matches!(vector, Vector::Small(_)));
    assert_eq!(vector, Vector::new([7, -9, 0, 12]));
    assert_eq!(vector[0], 7);
    assert_eq!(vector[3], 12);
}

#[test]
fn draws_are_stored_inline_up_to_the_limit() {
    let mut draws: Vec<u16> = Vec::new();
    for n in 0..5000u16 {
        draws.push(n);
    }

    let vector: Vector<u16, 5000> = Vector::from_draws(draws);

    assert!(matches!(vector, Vector::Small(_)));
    assert_eq!(vector[0], 0);
    assert_eq!(vector[1234], 1234);
    assert_eq!(vector[4999], 4999);
}

#[test]
fn draws_are_stored_on_the_heap_beyond_the_limit() {
    let mut draws: Vec<u16> = Vec::new();
    for n in 0..5001u16 {
        draws.push(n);
    }

    let vector: Vector<u16, 5001> = Vector::from_draws(draws);

    assert!(matches!(vector, Vector::Large(_)));
    assert_eq!(vector[0], 0);
    assert_eq!(vector[1234], 1234);
    assert_eq!(vector[5000], 5000);
}

#[test]
fn no_draws_make_the_empty_vector() {
    let vector: Vector<u8, 0> = Vector::from_draws(Vec::new());

    assert!(matches!(vector, Vector::Small(_)));
    assert_eq!(vector.len(), 0);
}

#[test]
fn as_many_elements_are_drawn_as_asked_for() {
    let none: Vec<i64> = random_elements(0);
    let some: Vec<i64> = random_elements(37);

    assert_eq!(none.len(), 0);
    assert_eq!(some.len(), 37);
}

#[test]
fn random_storages_hold_every_element() {
    let inline: SmallVector<u32, 9> = SmallVector::new_random();
    let heap: LargeVector<u32, 9> = LargeVector::new_random();

    assert_eq!(inline.data.len(), 9);
    assert_eq!(heap.data.len(), 9);
}
