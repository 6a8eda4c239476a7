use vstd::prelude::*;

use crate::mat2::{Mat2, Matrix};
use crate::vec2::{Vec2, Vector};

verus! {

/// The product of two `i64` values lies between `i64::MIN * i64::MAX` and `i64::MIN * i64::MIN`.
pub proof fn lemma_mul_i64_bounds(a: i64, b: i64)
    ensures
        i64::MIN * i64::MAX <= a * b <= i64::MIN * i64::MIN,
{
    assert(i64::MIN * i64::MAX <= a * b <= i64::MIN * i64::MIN) by (nonlinear_arith);
}

/// A matrix times its adjugate, on either side, is its determinant times the identity.
pub proof fn lemma_adjugate_product(m: Matrix)
    ensures
        m.mul_mat(m.adjugate()) == Matrix::identity().scale(m.det()),
        m.adjugate().mul_mat(m) == Matrix::identity().scale(m.det()),
{
    let (a, b, c, d) = (m.x_axis.x, m.x_axis.y, m.y_axis.x, m.y_axis.y);
    assert(a * d + c * (-b) == a * d - b * c) by (nonlinear_arith);
    assert(b * d + d * (-b) == 0) by (nonlinear_arith);
    assert(a * (-c) + c * a == 0) by (nonlinear_arith);
    assert(b * (-c) + d * a == a * d - b * c) by (nonlinear_arith);
    assert(d * a + (-c) * b == a * d - b * c) by (nonlinear_arith);
    assert(-b * a + a * b == 0) by (nonlinear_arith);
    assert(d * c + (-c) * d == 0) by (nonlinear_arith);
    assert(-b * c + a * d == a * d - b * c) by (nonlinear_arith);
    assert(1 * m.det() == m.det());
}

/// Scaling either factor of a product scales the product.
pub proof fn lemma_mul_mat_scale(m: Matrix, n: Matrix, s: int)
    ensures
        m.mul_mat(n.scale(s)) == m.mul_mat(n).scale(s),
        m.scale(s).mul_mat(n) == m.mul_mat(n).scale(s),
{
    let (a, b, c, d) = (m.x_axis.x, m.x_axis.y, m.y_axis.x, m.y_axis.y);
    let (e, f, g, h) = (n.x_axis.x, n.x_axis.y, n.y_axis.x, n.y_axis.y);
    assert(a * (e * s) + c * (f * s) == (a * e + c * f) * s) by (nonlinear_arith);
    assert(b * (e * s) + d * (f * s) == (b * e + d * f) * s) by (nonlinear_arith);
    assert(a * (g * s) + c * (h * s) == (a * g + c * h) * s) by (nonlinear_arith);
    assert(b * (g * s) + d * (h * s) == (b * g + d * h) * s) by (nonlinear_arith);
    assert((a * s) * e + (c * s) * f == (a * e + c * f) * s) by (nonlinear_arith);
    assert((b * s) * e + (d * s) * f == (b * e + d * f) * s) by (nonlinear_arith);
    assert((a * s) * g + (c * s) * h == (a * g + c * h) * s) by (nonlinear_arith);
    assert((b * s) * g + (d * s) * h == (b * g + d * h) * s) by (nonlinear_arith);
}

/// Dividing by a unit is the same as multiplying by it.
pub proof fn lemma_div_unit(m: Matrix, u: int)
    requires
        u == 1 || u == -1,
    ensures
        m.div_scalar(u) == m.scale(u),
{
}

/// The adjugate divided by a unit determinant is a two-sided inverse.
pub proof fn lemma_unimodular_inverse(m: Matrix)
    requires
        m.is_unimodular(),
    ensures
        m.mul_mat(m.adjugate().div_scalar(m.det())) == Matrix::identity(),
        m.adjugate().div_scalar(m.det()).mul_mat(m) == Matrix::identity(),
{
    let u = m.det();
    lemma_div_unit(m.adjugate(), u);
    lemma_adjugate_product(m);
    lemma_mul_mat_scale(m, m.adjugate(), u);
    lemma_mul_mat_scale(m.adjugate(), m, u);
    assert(u * u == 1) by (nonlinear_arith)
        requires
            u == 1 || u == -1,
    ;
    assert(Matrix::identity().scale(u).scale(u) == Matrix::identity());
}

/// Reading four entries in column-major order and writing them back out gives
/// the same four entries, and writing a matrix out and reading it back gives
/// the same matrix.
pub proof fn lemma_cols_array_round_trip(a: [i64; 4], m: Mat2)
    ensures
        Mat2::from_lanes(a@).lanes() == a@,
        Mat2::from_lanes(m.lanes()) == m,
{
    assert(Mat2::from_lanes(a@).lanes() =~= a@);
}

/// Two columns written out as nested arrays read back as the same matrix.
pub proof fn lemma_cols_array_2d_round_trip(m: Mat2, c: [[i64; 2]; 2])
    requires
        c@[0]@ == seq![m.x_axis.x, m.x_axis.y],
        c@[1]@ == seq![m.y_axis.x, m.y_axis.y],
    ensures
        Mat2::from_columns(c@) == m,
{
}

/// The identity is a neutral element of the matrix product, on either side.
pub proof fn lemma_identity_mul(m: Mat2)
    ensures
        Matrix::identity().mul_mat(m@) == m@,
        m@.mul_mat(Matrix::identity()) == m@,
{
}

/// Transposing twice gives back the matrix.
pub proof fn lemma_transpose_involution(m: Mat2)
    ensures
        m@.transpose().transpose() == m@,
{
}

/// The determinant of a product is the product of the determinants.
pub proof fn lemma_det_mul(a: Mat2, b: Mat2)
    ensures
        a@.mul_mat(b@).det() == a@.det() * b@.det(),
{
    let (p, q, r, s) = (a.x_axis.x as int, a.x_axis.y as int, a.y_axis.x as int, a.y_axis.y as int);
    let (e, f, g, h) = (b.x_axis.x as int, b.x_axis.y as int, b.y_axis.x as int, b.y_axis.y as int);
    lemma_mul_sums(p * e, r * f, q * g, s * h);
    lemma_mul_sums(q * e, s * f, p * g, r * h);
    lemma_mul_diffs(p * s, q * r, e * h, f * g);
    assert((p * e) * (q * g) == (q * e) * (p * g)) by (nonlinear_arith);
    assert((r * f) * (s * h) == (s * f) * (r * h)) by (nonlinear_arith);
    assert((p * e) * (s * h) == (p * s) * (e * h)) by (nonlinear_arith);
    assert((r * f) * (q * g) == (q * r) * (f * g)) by (nonlinear_arith);
    assert((q * e) * (r * h) == (q * r) * (e * h)) by (nonlinear_arith);
    assert((s * f) * (p * g) == (p * s) * (f * g)) by (nonlinear_arith);
}

proof fn lemma_mul_sums(x: int, y: int, z: int, w: int)
    ensures
        (x + y) * (z + w) == x * z + x * w + y * z + y * w,
{
    assert((x + y) * (z + w) == x * z + x * w + y * z + y * w) by (nonlinear_arith);
}

proof fn lemma_mul_diffs(x: int, y: int, z: int, w: int)
    ensures
        (x - y) * (z - w) == x * z - x * w - y * z + y * w,
{
    assert((x - y) * (z - w) == x * z - x * w - y * z + y * w) by (nonlinear_arith);
}

/// A matrix maps the zero vector to zero and the sum of two vectors to the
/// sum of their images.
pub proof fn lemma_mul_vec_linear(m: Mat2, a: Vec2, b: Vec2)
    ensures
        m@.mul_vec(Vector::zero()) == Vector::zero(),
        m@.mul_vec(a@.add_vec(b@)) == m@.mul_vec(a@).add_vec(m@.mul_vec(b@)),
{
    let (p, q, r, s) = (m.x_axis.x as int, m.x_axis.y as int, m.y_axis.x as int, m.y_axis.y as int);
    let (ax, ay, bx, by) = (a.x as int, a.y as int, b.x as int, b.y as int);
    assert(p * 0 + r * 0 == 0 && q * 0 + s * 0 == 0) by (nonlinear_arith);
    assert(p * (ax + bx) + r * (ay + by) == (p * ax + r * ay) + (p * bx + r * by))
        by (nonlinear_arith);
    assert(q * (ax + bx) + s * (ay + by) == (q * ax + s * ay) + (q * bx + s * by))
        by (nonlinear_arith);
}

/// Scaling a matrix by `s` multiplies each of its entries by `s`.
pub proof fn lemma_scale_lanes(m: Mat2, s: i64)
    ensures
        forall|i: int| 0 <= i < 4 ==> #[trigger] m@.scale(s as int).lanes()[i] == s * m@.lanes()[i],
{
    let (p, q, r, t) = (m.x_axis.x as int, m.x_axis.y as int, m.y_axis.x as int, m.y_axis.y as int);
    assert(p * s == s * p && q * s == s * q && r * s == s * r && t * s == s * t)
        by (nonlinear_arith);
}

} // verus!
