use straaljager::math::matrix::Matrix;
use straaljager::math::vector::Vector;

#[test]
fn test_mat4_zero() {
    let matrix = Matrix::<4, 4>::zero();

    assert_eq!(matrix[0], Vector::<4>::zero());
    assert_eq!(matrix[1], Vector::<4>::zero());
    assert_eq!(matrix[2], Vector::<4>::zero());
    assert_eq!(matrix[3], Vector::<4>::zero());
}

#[test]
fn test_mat4_identity() {
    let matrix = Matrix::<4, 4>::identity();

    assert_eq!(matrix[0], Vector::<4>::new(1, 0, 0, 0));
    assert_eq!(matrix[1], Vector::<4>::new(0, 1, 0, 0));
    assert_eq!(matrix[2], Vector::<4>::new(0, 0, 1, 0));
    assert_eq!(matrix[3], Vector::<4>::new(0, 0, 0, 1));
}

#[test]
fn test_mat4_eq_identity() {
    let mat1 = Matrix::<4, 4>::identity();
    let mat2 = Matrix::<4, 4>::identity();

    assert_eq!(mat1, mat2);
}

#[test]
fn test_mat4_transposed_identity() {
    let mat1 = Matrix::<4, 4>::identity();
    let mat2 = Matrix::<4, 4>::identity().transposed();

    assert_eq!(mat1, mat2);
}

#[test]
fn test_mat4_transposed_self_twice() {
    let mat1 = Matrix::<4, 4>::new([
        [0, 1, 2, 3],
        [4, 5, 6, 7],
        [8, 9, 10, 11],
        [12, 13, 14, 15],
    ]);
    let mat2 = mat1.transposed().transposed();

    assert_eq!(mat1, mat2);
}

#[test]
fn test_mat4_transposed() {
    let mat1 = Matrix::<4, 4>::new([
        [0, 1, 2, 3],
        [4, 5, 6, 7],
        [8, 9, 10, 11],
        [12, 13, 14, 15],
    ])
    .transposed();
    let mat2 = Matrix::<4, 4>::new([
        [0, 4, 8, 12],
        [1, 5, 9, 13],
        [2, 6, 10, 14],
        [3, 7, 11, 15],
    ]);

    assert_eq!(mat1, mat2);
}

#[test]
fn test_mat4_mul_identity() {
    let mat1 = Matrix::<4, 4>::identity();
    let mat2 = Matrix::<4, 4>::identity();

    let result = &mat1 * &mat2;

    assert_eq!(result, Matrix::<4, 4>::identity());
}

#[test]
fn test_mat4_mul_identity_zero() {
    let mat1 = Matrix::<4, 4>::identity();
    let mat2 = Matrix::<4, 4>::zero();

    let result = &mat1 * &mat2;

    assert_eq!(result, Matrix::<4, 4>::zero());
}

#[test]
fn test_mat4_mul() {
    let mat1 = Matrix::<4, 4>::new([
        [1, 64, 16, 25],
        [4, -4, 5, -4],
        [2, 54, -4, 43],
        [-59, 23, 59, -14],
    ]);
    let mat2 = Matrix::<4, 4>::new([
        [12, -3, 54, 34],
        [-23, 0, -12, 43],
        [67, -89, 19, 76],
        [49, 56, 34, 53],
    ]);

    let result = &mat1 * &mat2;

    assert_eq!(
        result,
        Matrix::<4, 4>::new([
            [-1898, 4478, 1967, 2158],
            [-2584, -1131, 2217, -1693],
            [-4735, 7418, 5035, 1784],
            [-2786, 5967, 4055, 1721],
        ])
    );
}

#[test]
fn test_mat4_mul_non_commutative() {
    let mat1 = Matrix::<4, 4>::new([
        [1, 64, 16, 25],
        [4, -4, 5, -4],
        [2, 54, -4, 43],
        [-59, 23, 59, -14],
    ]);

    let mat2 = Matrix::<4, 4>::new([
        [12, -3, 54, 34],
        [-23, 0, -12, 43],
        [67, -89, 19, 76],
        [49, 56, 34, 53],
    ]);

    assert_ne!(&mat1 * &mat2, &mat2 * &mat1);
}
