use raytracer::canvas::AccessError;
use raytracer::matrix::Matrix;

#[test]
fn matrix4x4_exists() {
    let m = Matrix::new4x4([ 1.0f32,  2.0,  3.0,  4.0,
                             5.5,  6.5,  7.5,  8.5,
                             9.0, 10.0, 11.0, 12.0,
                            13.5, 14.5, 15.5, 16.5]);

    assert_eq!(m == m, true);

    assert_eq!(m[(0, 0)], 1.0);
    assert_eq!(m[(0, 3)], 4.0);
    assert_eq!(m[(1, 0)], 5.5);
    assert_eq!(m[(1, 2)], 7.5);
    assert_eq!(m[(1, 2)], 7.5);
    assert_eq!(m[(2, 2)], 11.0);
    assert_eq!(m[(3, 0)], 13.5);
    assert_eq!(m[(3, 2)], 15.5);
}

#[test]
fn matrix3x3_exists() {
    let m = Matrix::new3x3([-3.0f32, 5.0, 0.0,
                             1.0, -2.0, -7.0,
                             0.0, 1.0, 1.0], 0.0);

    assert_eq!(m[(0, 0)], -3.0);
    assert_eq!(m[(1, 1)], -2.0);
    assert_eq!(m[(2, 2)], 1.0);
}

#[test]
fn matrix2x2_exists() {
    let m = Matrix::new2x2([-3.0f32, 5.0,
                             1.0, -2.0], 0.0);

    assert_eq!(m[(0, 0)], -3.0);
    assert_eq!(m[(0, 1)], 5.0);
    assert_eq!(m[(1, 0)], 1.0);
    assert_eq!(m[(1, 1)], -2.0);
}

#[test]
fn matrix_sizes() {
    assert_eq!(Matrix::new4x4([0i32; 16]).size(), 4);
    assert_eq!(Matrix::new3x3([0i32; 9], 0).size(), 3);
    assert_eq!(Matrix::new2x2([0i32; 4], 0).size(), 2);
}

#[test]
fn matrices_with_the_same_entries_are_equal() {
    let a = Matrix::new2x2([1i32, 2, 3, 4], 0);
    let b = Matrix::new2x2([1i32, 2, 3, 4], 0);
    let c = Matrix::new2x2([1i32, 2, 3, 5], 0);
    assert!(a == b);
    assert!(a != c);
}

#[test]
fn unused_cells_take_part_in_equality() {
    let a = Matrix::new2x2([1i32, 2, 3, 4], 0);
    let b = Matrix::new2x2([1i32, 2, 3, 4], 9);
    assert!(a != b);
}

#[test]
fn try_at_reads_the_square_block() {
    let m = Matrix::new3x3([-3i32, 5, 0, 1, -2, -7, 0, 1, 1], 0);
    assert_eq!(m.try_at(1, 2), Ok(-7));
    assert_eq!(m.try_at(2, 1), Ok(1));
}

#[test]
fn try_at_refuses_out_of_bounds() {
    let m = Matrix::new2x2([1i32, 2, 3, 4], 0);
    assert_eq!(m.try_at(0, 2), Err(AccessError::OutOfBounds));
    assert_eq!(m.try_at(2, 0), Err(AccessError::OutOfBounds));
    assert_eq!(m.try_at(-1, 0), Err(AccessError::OutOfBounds));
    assert_eq!(m.try_at(0, -1), Err(AccessError::OutOfBounds));
}
