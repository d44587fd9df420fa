use straaljager::math::matrix::Matrix;
use straaljager::math::vector::Vector;

#[test]
fn test_mat3_zero() {
    let matrix = Matrix::<3, 3>::zero();

    assert_eq!(matrix[0], Vector::<3>::zero());
    assert_eq!(matrix[1], Vector::<3>::zero());
    assert_eq!(matrix[2], Vector::<3>::zero());
}

#[test]
fn test_mat3_identity() {
    let matrix = Matrix::<3, 3>::identity();

    assert_eq!(matrix[0], Vector::<3>::new(1, 0, 0));
    assert_eq!(matrix[1], Vector::<3>::new(0, 1, 0));
    assert_eq!(matrix[2], Vector::<3>::new(0, 0, 1));
}

#[test]
fn test_mat3_eq_identity() {
    let mat1 = Matrix::<3, 3>::identity();
    let mat2 = Matrix::<3, 3>::identity();

    assert_eq!(mat1, mat2);
}

#[test]
fn test_mat3_transposed_identity() {
    let mat1 = Matrix::<3, 3>::identity();
    let mat2 = Matrix::<3, 3>::identity().transposed();

    assert_eq!(mat1, mat2);
}

#[test]
fn test_mat3_transposed_self_twice() {
    let mat1 = Matrix::<3, 3>::new([[0, 3, 6], [1, 4, 7], [2, 5, 8]]);
    let mat2 = mat1.transposed().transposed();

    assert_eq!(mat1, mat2);
}

#[test]
fn test_mat3_transposed() {
    let mat1 = Matrix::<3, 3>::new([[0, 3, 6], [1, 4, 7], [2, 5, 8]]).transposed();
    let mat2 = Matrix::<3, 3>::new([[0, 1, 2], [3, 4, 5], [6, 7, 8]]);

    assert_eq!(mat1, mat2);
}

#[test]
fn test_mat3_mul_identity() {
    let mat1 = Matrix::<3, 3>::identity();
    let mat2 = Matrix::<3, 3>::identity();

    let result = &mat1 * &mat2;

    assert_eq!(result, Matrix::<3, 3>::identity());
}

#[test]
fn test_mat3_mul_identity_zero() {
    let mat1 = Matrix::<3, 3>::identity();
    let mat2 = Matrix::<3, 3>::zero();

    let result = &mat1 * &mat2;

    assert_eq!(result, Matrix::<3, 3>::zero());
}

#[test]
fn test_mat3_mul() {
    let mat1 = Matrix::<3, 3>::new([[1, 25, 5], [64, 4, -4], [16, -4, 2]]);
    let mat2 = Matrix::<3, 3>::new([[12, 34, -12], [-3, -23, 43], [54, 0, 67]]);

    let result = &mat1 * &mat2;

    assert_eq!(
        result,
        Matrix::<3, 3>::new([[1996, 484, -100], [-787, -339, 163], [1126, 1082, 404]])
    );
}

#[test]
fn test_mat3_mul_non_commutative() {
    let mat1 = Matrix::<3, 3>::new([[1, 25, 5], [64, 4, -4], [16, -4, 2]]);
    let mat2 = Matrix::<3, 3>::new([[12, 34, -12], [-3, -23, 43], [54, 0, 67]]);

    assert_ne!(&mat1 * &mat2, &mat2 * &mat1);
}

#[test]
fn test_mat3_adjoint() {
    let mat = Matrix::<3, 3>::new([[1, 25, 5], [64, 4, -4], [16, -4, 2]]);
    let res = Matrix::<3, 3>::new([[-8, -70, -120], [-192, -78, 324], [-320, 404, -1596]]);

    assert_eq!(mat.adjoint(), res);
}

#[test]
fn test_mat3_determinant() {
    let mat = Matrix::<3, 3>::new([[1, 25, 5], [64, 4, -4], [16, -4, 2]]);
    assert_eq!(mat.determinant(), -6408);
    assert_eq!(Matrix::<3, 3>::identity().determinant(), 1);
}
