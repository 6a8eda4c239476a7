use mat2x2::{mat2, Mat2, Vec2};

fn m(a: i64, b: i64, c: i64, d: i64) -> Mat2 {
    Mat2::from_cols_array(&[a, b, c, d])
}

#[test]
fn cols_array_round_trip() {
    for a in [[1, 2, 3, 4], [0, 0, 0, 0], [i64::MIN, i64::MAX, -1, 7]] {
        assert_eq!(Mat2::from_cols_array(&a).to_cols_array(), a);
    }
    let x = m(5, -6, 7, -8);
    assert_eq!(Mat2::from_cols_array(&x.to_cols_array()), x);
}

#[test]
fn cols_array_2d_round_trip() {
    let a = [[1, 2], [3, 4]];
    let x = Mat2::from_cols_array_2d(&a);
    assert_eq!(x, m(1, 2, 3, 4));
    assert_eq!(x.to_cols_array_2d(), a);
    assert_eq!(Mat2::from_cols_array_2d(&x.to_cols_array_2d()), x);
}

#[test]
fn identity_is_neutral() {
    let x = m(3, -1, 4, 1);
    assert_eq!(Mat2::identity().mul_mat2(&x), x);
    assert_eq!(x.mul_mat2(&Mat2::identity()), x);
}

#[test]
fn transpose_twice_is_identity_map() {
    let x = m(3, -1, 4, 1);
    assert_eq!(x.transpose().transpose(), x);
    assert_eq!(x.transpose(), m(3, 4, -1, 1));
}

#[test]
fn transpose_swaps_off_diagonal_lanes() {
    assert_eq!(m(1, 2, 3, 4).transpose().to_cols_array(), [1, 3, 2, 4]);
}

#[test]
fn determinant_of_product() {
    let a = m(1, 2, 3, 4);
    let b = m(2, 0, 1, 3);
    let p = a.mul_mat2(&b);
    assert_eq!(p, m(2, 4, 10, 14));
    assert_eq!(p.determinant(), a.determinant() * b.determinant());
    assert_eq!(p.determinant(), -12);
}

#[test]
fn determinant_of_scale() {
    assert_eq!(Mat2::from_scale(Vec2::new(2, 3)).determinant(), 6);
}

#[test]
fn determinant_extremes_are_exact() {
    let x = m(i64::MIN, i64::MAX, i64::MIN, i64::MIN);
    let expected = (i64::MIN as i128) * (i64::MIN as i128) - (i64::MAX as i128) * (i64::MIN as i128);
    assert_eq!(x.determinant(), expected);
}

#[test]
fn inverse_of_unimodular_matrix() {
    let x = m(2, 1, 1, 1);
    let inv = x.inverse().unwrap();
    assert_eq!(inv, m(1, -1, -1, 2));
    assert_eq!(x.mul_mat2(&inv), Mat2::identity());
    assert_eq!(inv.mul_mat2(&x), Mat2::identity());
}

#[test]
fn inverse_with_negative_unit_determinant() {
    let x = m(0, 1, 1, 0);
    assert_eq!(x.determinant(), -1);
    let inv = x.inverse().unwrap();
    assert_eq!(inv, x);
    let y = m(1, 2, 3, 5);
    assert_eq!(y.determinant(), -1);
    let yi = y.inverse().unwrap();
    assert_eq!(yi, m(-5, 2, 3, -1));
    assert_eq!(y.mul_mat2(&yi), Mat2::identity());
}

#[test]
fn inverse_of_singular_matrix_is_none() {
    assert_eq!(m(1, 2, 2, 4).inverse(), None);
    assert_eq!(Mat2::zero().inverse(), None);
}

#[test]
fn inverse_without_integer_entries_is_none() {
    assert_eq!(Mat2::from_scale(Vec2::new(2, 3)).inverse(), None);
}

#[test]
fn inverse_that_does_not_fit_is_none() {
    let x = m(1, i64::MIN, 0, 1);
    assert_eq!(x.determinant(), 1);
    assert_eq!(x.inverse(), None);
    let y = m(1, i64::MAX, 0, 1);
    assert_eq!(y.inverse(), Some(m(1, -i64::MAX, 0, 1)));
}

#[test]
fn mul_vec2_is_linear() {
    let x = m(1, 2, 3, 4);
    assert_eq!(x.mul_vec2(Vec2::zero()), Vec2::zero());
    let a = Vec2::new(5, -6);
    let b = Vec2::new(-7, 8);
    let ma = x.mul_vec2(a);
    let mb = x.mul_vec2(b);
    let sum = x.mul_vec2(Vec2::new(a.x + b.x, a.y + b.y));
    assert_eq!(sum, Vec2::new(ma.x + mb.x, ma.y + mb.y));
    assert_eq!(ma, Vec2::new(1 * 5 + 3 * -6, 2 * 5 + 4 * -6));
}

#[test]
fn mul_vec2_combines_columns() {
    let x = m(1, 2, 3, 4);
    assert_eq!(x.mul_vec2(Vec2::new(1, 0)), Vec2::new(1, 2));
    assert_eq!(x.mul_vec2(Vec2::new(0, 1)), Vec2::new(3, 4));
    assert_eq!(x.mul_vec2(Vec2::new(2, 3)), Vec2::new(11, 16));
}

#[test]
fn mul_scalar_scales_every_lane() {
    let x = m(1, -2, 3, 4);
    let s = 3;
    let y = x.mul_scalar(s);
    let (a, b) = (x.to_cols_array(), y.to_cols_array());
    for i in 0..4 {
        assert_eq!(b[i], s * a[i]);
    }
    assert_eq!(y, m(3, -6, 9, 12));
}

#[test]
fn add_and_sub_are_entrywise() {
    let a = m(1, 2, 3, 4);
    let b = m(10, 20, 30, 40);
    assert_eq!(a.add_mat2(&b), m(11, 22, 33, 44));
    assert_eq!(b.sub_mat2(&a), m(9, 18, 27, 36));
    assert_eq!(a.add_mat2(&b).sub_mat2(&b), a);
}

#[test]
fn abs_diff_eq_compares_each_lane() {
    let a = m(1, 2, 3, 4);
    assert!(a.abs_diff_eq(m(2, 1, 3, 5), 1));
    assert!(!a.abs_diff_eq(m(2, 1, 3, 6), 1));
    assert!(a.abs_diff_eq(a, 0));
    assert!(!m(i64::MIN, 0, 0, 0).abs_diff_eq(m(i64::MAX, 0, 0, 0), i64::MAX));
    assert!(!a.abs_diff_eq(a, -1));
}

#[test]
fn constructors() {
    assert_eq!(Mat2::zero().to_cols_array(), [0, 0, 0, 0]);
    assert_eq!(Mat2::identity().to_cols_array(), [1, 0, 0, 1]);
    assert_eq!(Mat2::default(), Mat2::identity());
    let x = Vec2::new(1, 2);
    let y = Vec2::new(3, 4);
    assert_eq!(Mat2::from_cols(x, y).to_cols_array(), [1, 2, 3, 4]);
    assert_eq!(Mat2::new(x, y), Mat2::from_cols(x, y));
    assert_eq!(mat2(x, y), Mat2::from_cols(x, y));
    assert_eq!(Mat2::from_scale(Vec2::new(2, 3)).to_cols_array(), [2, 0, 0, 3]);
}

#[test]
fn axes_get_and_set() {
    let mut x = m(1, 2, 3, 4);
    assert_eq!(x.x_axis(), Vec2::new(1, 2));
    assert_eq!(x.y_axis(), Vec2::new(3, 4));
    x.set_x_axis(Vec2::new(5, 6));
    assert_eq!(x.to_cols_array(), [5, 6, 3, 4]);
    x.set_y_axis(Vec2::new(7, 8));
    assert_eq!(x.to_cols_array(), [5, 6, 7, 8]);
    assert_eq!(x.x_axis().x(), 5);
    assert_eq!(x.y_axis().y(), 8);
}
