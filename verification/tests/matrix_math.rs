use sickmath::{Matrix, Vector};

#[test]
fn multiply_matrix() {
    let matrix_array: Matrix<u8, 3, 2> = Matrix::new([[1, 2], [3, 4], [5, 6]]);

    let matrix_vec: Matrix<u8, 2, 2> = Matrix::new([Vec::from([3, 1]), Vec::from([9, 6])]);

    let multiplied_matrix = matrix_array.mult(&matrix_vec);

    assert_eq!(
        multiplied_matrix,
        Matrix::new([
            Vector::new([21, 13]),
            Vector::new([45, 27]),
            Vector::new([69, 41])
        ])
    );
}

#[test]
fn add_matrix() {
    let matrix_array: Matrix<u8, 3, 2> = Matrix::new([[1, 2], [3, 4], [5, 6]]);

    let matrix_vec: Matrix<u8, 3, 2> =
        Matrix::new([Vec::from([3, 1]), Vec::from([9, 6]), Vec::from([2, 3])]);

    let added_matrix = matrix_array.add(&matrix_vec);
    println!("{:?}", matrix_vec);
    println!("{:?}", added_matrix);

    assert_eq!(
        added_matrix,
        Matrix::new([
            Vector::new([4, 3]),
            Vector::new([12, 10]),
            Vector::new([7, 9])
        ])
    );
}

#[test]
fn subtract_matrix() {
    let matrix_array: Matrix<u8, 3, 2> = Matrix::new([[5, 2], [100, 8], [5, 6]]);

    let matrix_vec: Matrix<u8, 3, 2> =
        Matrix::new([Vec::from([3, 1]), Vec::from([9, 6]), Vec::from([2, 3])]);

    let subtracted_matrix = matrix_array.subtract(&matrix_vec);

    assert_eq!(
        subtracted_matrix,
        Matrix::new([
            Vector::new([2, 1]),
            Vector::new([91, 2]),
            Vector::new([3, 3])
        ])
    );
}
