use tracer_core::color::PPMColor;
use tracer_core::fixed::SCALE;
use tracer_core::matrix::Matrix;
use tracer_core::vector::Triple;

fn t(x: i64, y: i64, z: i64) -> Triple {
    Triple { x, y, z }
}

#[test]
fn quantization_clamps_out_of_range_channels() {
    // (1.5, -0.2, 0.5): excess saturates instead of wrapping, and
    // 0.5 * 255 truncates to 127.
    let c = PPMColor::from(t(3 * SCALE / 2, -SCALE / 5, SCALE / 2));
    assert_eq!((c.r, c.g, c.b), (255, 0, 127));
}

#[test]
fn quantization_of_extremes() {
    let c = PPMColor::from(t(SCALE, 0, 4_000));
    assert_eq!((c.r, c.g, c.b), (255, 0, 1));
}

#[test]
fn quantization_matches_clamped_input() {
    // Quantizing is idempotent under clamping: the clamped color
    // quantizes to the same bytes as the raw one.
    let raw = t(3 * SCALE / 2, -SCALE / 5, SCALE / 2);
    let clamped = t(SCALE, 0, SCALE / 2);
    let a = PPMColor::from(raw);
    let b = PPMColor::from(clamped);
    assert_eq!((a.r, a.g, a.b), (b.r, b.g, b.b));
}

#[test]
fn new_matrix_is_zero() {
    let m: Matrix<3> = Matrix::new();
    assert_eq!(m.table, vec![0i64; 9]);
}

#[test]
fn from_slice_fills_row_major_and_pads_with_zero() {
    let m: Matrix<3> = Matrix::from_slice(&[1, 2, 3, 4, 5, 6, 7]);
    assert_eq!(m.table, vec![1, 2, 3, 4, 5, 6, 7, 0, 0]);
}

#[test]
fn identity_carries_scale_on_the_diagonal() {
    let m: Matrix<3> = Matrix::generate_identity_matrix();
    assert_eq!(m.table, vec![SCALE, 0, 0, 0, SCALE, 0, 0, 0, SCALE]);
}

#[test]
fn matrix_add_is_componentwise() {
    let a: Matrix<2> = Matrix::from_slice(&[1, 2, 3, 4]);
    let b: Matrix<2> = Matrix::from_slice(&[10, 20, 30, 40]);
    assert_eq!(a.add(&b).table, vec![11, 22, 33, 44]);
}

#[test]
fn matrix_add_assign_matches_add() {
    let mut a: Matrix<2> = Matrix::from_slice(&[1, 2, 3, 4]);
    a.add_assign(&Matrix::from_slice(&[1, 1, 1, 1]));
    assert_eq!(a.table, vec![2, 3, 4, 5]);
}

#[test]
fn identity_is_neutral_for_multiplication() {
    let id: Matrix<3> = Matrix::generate_identity_matrix();
    let a: Matrix<3> = Matrix::from_slice(&[1, 2, 3, 4, 5, 6, 7, 8, 9]);
    assert_eq!(id.mul(&a).table, a.table);
    assert_eq!(a.mul(&id).table, a.table);
}

#[test]
fn multiplication_scales_products_back() {
    // A diagonal matrix of 2.0 doubles every entry.
    let two: Matrix<2> = Matrix::from_slice(&[2 * SCALE, 0, 0, 2 * SCALE]);
    let a: Matrix<2> = Matrix::from_slice(&[10, 20, 30, 40]);
    assert_eq!(two.mul(&a).table, vec![20, 40, 60, 80]);
}

#[test]
fn vector_times_identity_is_unchanged() {
    let id: Matrix<3> = Matrix::generate_identity_matrix();
    let v = t(SCALE, 2 * SCALE, 3 * SCALE);
    assert_eq!(v.mul_matrix(&id), v);
}

#[test]
fn vector_times_matrix_combines_columns() {
    let m: Matrix<3> = Matrix::from_slice(&[
        2 * SCALE, 0, 0,
        0, SCALE, 0,
        0, 0, SCALE,
    ]);
    let v = t(SCALE, SCALE, SCALE);
    assert_eq!(v.mul_matrix(&m), t(2 * SCALE, SCALE, SCALE));
}

#[test]
fn mul_matrix_assign_matches_mul_matrix() {
    let m: Matrix<3> = Matrix::generate_identity_matrix();
    let mut v = t(1, 2, 3);
    v.mul_matrix_assign(&m);
    assert_eq!(v, t(1, 2, 3));
}
