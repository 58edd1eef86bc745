use tracer_core::fixed::SCALE;
use tracer_core::vector::Triple;

fn t(x: i64, y: i64, z: i64) -> Triple {
    Triple { x, y, z }
}

#[test]
fn add_is_componentwise() {
    let a = t(1, 2, 3);
    let b = t(4, 5, 6);
    assert_eq!(a.add(&b), t(5, 7, 9));
}

#[test]
fn add_assign_matches_add() {
    let mut a = t(1, -2, 3);
    a.add_assign(&t(10, 20, 30));
    assert_eq!(a, t(11, 18, 33));
}

#[test]
fn sub_is_componentwise() {
    let a = t(10, 10, 10);
    assert_eq!(a.sub(&t(1, 2, 3)), t(9, 8, 7));
}

#[test]
fn sub_assign_matches_sub() {
    let mut a = t(5, 5, 5);
    a.sub_assign(&t(1, 1, 2));
    assert_eq!(a, t(4, 4, 3));
}

#[test]
fn scalar_add_and_sub() {
    assert_eq!(t(1, 2, 3).add_scalar(10), t(11, 12, 13));
    assert_eq!(t(1, 2, 3).sub_scalar(1), t(0, 1, 2));
}

#[test]
fn scale_by_half() {
    let a = t(2 * SCALE, -3 * SCALE, SCALE);
    let half = SCALE / 2;
    assert_eq!(a.scale(half), t(SCALE, -3 * SCALE / 2, SCALE / 2));
}

#[test]
fn scale_assign_matches_scale() {
    let mut a = t(2 * SCALE, 0, 0);
    a.scale_assign(SCALE / 2);
    assert_eq!(a, t(SCALE, 0, 0));
}

#[test]
fn dot_product_of_unit_axes() {
    let x = t(SCALE, 0, 0);
    let y = t(0, SCALE, 0);
    assert_eq!(x.dot_product(&x), SCALE);
    assert_eq!(x.dot_product(&y), 0);
}

#[test]
fn cross_product_right_handed() {
    let x = t(SCALE, 0, 0);
    let y = t(0, SCALE, 0);
    assert_eq!(x.cross_product(&y), t(0, 0, SCALE));
    assert_eq!(y.cross_product(&x), t(0, 0, -SCALE));
}

#[test]
fn length_of_three_four_five() {
    let a = t(3 * SCALE, 4 * SCALE, 0);
    assert_eq!(a.get_length(), 5 * SCALE);
}

#[test]
fn normalize_rescales_to_unit_length() {
    let mut a = t(3 * SCALE, 4 * SCALE, 0);
    a.normalize();
    assert_eq!(a, t(600_000, 800_000, 0));
}

#[test]
fn normalize_leaves_zero_vector_unchanged() {
    let mut a = t(0, 0, 0);
    a.normalize();
    assert_eq!(a, t(0, 0, 0));
}

#[test]
fn get_normalized_does_not_mutate() {
    let a = t(0, 2 * SCALE, 0);
    let n = a.get_normalized();
    assert_eq!(n, t(0, SCALE, 0));
    assert_eq!(a, t(0, 2 * SCALE, 0));
}

#[test]
fn reflect_across_horizontal_plane() {
    // v = (1, -1, 0) against n = (0, 1, 0) must yield (1, 1, 0).
    let v = t(SCALE, -SCALE, 0);
    let n = t(0, SCALE, 0);
    assert_eq!(v.reflect(&n), t(SCALE, SCALE, 0));
}
