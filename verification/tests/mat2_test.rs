use straaljager::math::matrix::Matrix;
use straaljager::math::vector::Vector;

#[test]
fn test_mat2_zero() {
    let matrix = Matrix::<2, 2>::zero();

    assert_eq!(matrix[0], Vector::<2>::zero());
    assert_eq!(matrix[1], Vector::<2>::zero());
}

#[test]
fn test_mat2_identity() {
    let matrix = Matrix::<2, 2>::identity();

    assert_eq!(matrix[0], Vector::<2>::new(1, 0));
    assert_eq!(matrix[1], Vector::<2>::new(0, 1));
}

#[test]
fn test_mat2_eq_identity() {
    let mat1 = Matrix::<2, 2>::identity();
    let mat2 = Matrix::<2, 2>::identity();

    assert_eq!(mat1, mat2);
}

#[test]
fn test_mat2_transposed_identity() {
    let mat1 = Matrix::<2, 2>::identity();
    let mat2 = Matrix::<2, 2>::identity().transposed();

    assert_eq!(mat1, mat2);
}

#[test]
fn test_mat2_transposed_self_twice() {
    let mat1 = Matrix::<2, 2>::new([[0, 2], [1, 3]]);
    let mat2 = mat1.transposed().transposed();

    assert_eq!(mat1, mat2);
}

#[test]
fn test_mat2_transposed() {
    let mat1 = Matrix::<2, 2>::new([[0, 2], [1, 3]]).transposed();
    let mat2 = Matrix::<2, 2>::new([[0, 1], [2, 3]]);

    assert_eq!(mat1, mat2);
}

#[test]
fn test_mat2_mul_identity() {
    let mat1 = Matrix::<2, 2>::identity();
    let mat2 = Matrix::<2, 2>::identity();

    let result = &mat1 * &mat2;

    assert_eq!(result, Matrix::<2, 2>::identity());
}

#[test]
fn test_mat2_mul_identity_zero() {
    let mat1 = Matrix::<2, 2>::identity();
    let mat2 = Matrix::<2, 2>::zero();

    let result = &mat1 * &mat2;

    assert_eq!(result, Matrix::<2, 2>::zero());
}

#[test]
fn test_mat2_mul() {
    let mat1 = Matrix::<2, 2>::new([[1, 16], [64, 25]]);
    let mat2 = Matrix::<2, 2>::new([[12, 54], [-3, 34]]);

    let result = &mat1 * &mat2;

    assert_eq!(result, Matrix::<2, 2>::new([[3468, 1542], [2173, 802]]));
}

#[test]
fn test_mat2_mul_non_commutative() {
    let mat1 = Matrix::<2, 2>::new([[1, 16], [64, 25]]);
    let mat2 = Matrix::<2, 2>::new([[12, 54], [-3, 34]]);

    assert_ne!(&mat1 * &mat2, &mat2 * &mat1);
}

#[test]
fn test_mat2_adjoint() {
    let mat = Matrix::<2, 2>::new([[1, 16], [64, 25]]);
    let res = Matrix::<2, 2>::new([[25, -16], [-64, 1]]);

    assert_eq!(mat.adjoint(), res);
}

#[test]
fn test_mat2_determinant() {
    let mat = Matrix::<2, 2>::new([[1, 16], [64, 25]]);
    assert_eq!(mat.determinant(), -999);
    assert_eq!(Matrix::<2, 2>::identity().determinant(), 1);
}
