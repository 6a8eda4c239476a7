use vstd::prelude::*;

use crate::algebra::{lemma_div_unit, lemma_mul_i64_bounds, lemma_unimodular_inverse};
use crate::vec2::{Vec2, Vector};

verus! {

/// A mathematical 2x2 matrix over the integers, held as two columns.
pub struct Matrix {
    pub x_axis: Vector,
    pub y_axis: Vector,
}

impl Matrix {
    pub open spec fn zero() -> Matrix {
        Matrix { x_axis: Vector { x: 0, y: 0 }, y_axis: Vector { x: 0, y: 0 } }
    }

    pub open spec fn identity() -> Matrix {
        Matrix { x_axis: Vector { x: 1, y: 0 }, y_axis: Vector { x: 0, y: 1 } }
    }

    /// The diagonal matrix `diag(v.x, v.y)`.
    pub open spec fn diagonal(v: Vector) -> Matrix {
        Matrix { x_axis: Vector { x: v.x, y: 0 }, y_axis: Vector { x: 0, y: v.y } }
    }

    /// Each pair of corresponding entries differs by at most `tol`.
    pub open spec fn within(self, rhs: Matrix, tol: int) -> bool {
        &&& abs_diff(self.x_axis.x, rhs.x_axis.x) <= tol
        &&& abs_diff(self.x_axis.y, rhs.x_axis.y) <= tol
        &&& abs_diff(self.y_axis.x, rhs.y_axis.x) <= tol
        &&& abs_diff(self.y_axis.y, rhs.y_axis.y) <= tol
    }

    /// The four entries in column-major order: `x_axis.x, x_axis.y, y_axis.x, y_axis.y`.
    pub open spec fn lanes(self) -> Seq<int> {
        seq![self.x_axis.x, self.x_axis.y, self.y_axis.x, self.y_axis.y]
    }

    /// Every entry is representable as `i64`.
    pub open spec fn fits(self) -> bool {
        self.x_axis.fits() && self.y_axis.fits()
    }

    pub open spec fn transpose(self) -> Matrix {
        Matrix {
            x_axis: Vector { x: self.x_axis.x, y: self.y_axis.x },
            y_axis: Vector { x: self.x_axis.y, y: self.y_axis.y },
        }
    }

    pub open spec fn det(self) -> int {
        self.x_axis.x * self.y_axis.y - self.x_axis.y * self.y_axis.x
    }

    /// The matrix of cofactors, transposed: diagonal swapped, off-diagonal negated.
    pub open spec fn adjugate(self) -> Matrix {
        Matrix {
            x_axis: Vector { x: self.y_axis.y, y: -self.x_axis.y },
            y_axis: Vector { x: -self.y_axis.x, y: self.x_axis.x },
        }
    }

    /// Invertible with an integer inverse: the determinant is a unit.
    pub open spec fn is_unimodular(self) -> bool {
        self.det() == 1 || self.det() == -1
    }

    /// `x_axis * v.x + y_axis * v.y`.
    pub open spec fn mul_vec(self, v: Vector) -> Vector {
        Vector {
            x: self.x_axis.x * v.x + self.y_axis.x * v.y,
            y: self.x_axis.y * v.x + self.y_axis.y * v.y,
        }
    }

    /// Column `i` of the product is `self` applied to column `i` of `rhs`.
    pub open spec fn mul_mat(self, rhs: Matrix) -> Matrix {
        Matrix { x_axis: self.mul_vec(rhs.x_axis), y_axis: self.mul_vec(rhs.y_axis) }
    }

    pub open spec fn add_mat(self, rhs: Matrix) -> Matrix {
        Matrix { x_axis: self.x_axis.add_vec(rhs.x_axis), y_axis: self.y_axis.add_vec(rhs.y_axis) }
    }

    pub open spec fn sub_mat(self, rhs: Matrix) -> Matrix {
        Matrix { x_axis: self.x_axis.sub_vec(rhs.x_axis), y_axis: self.y_axis.sub_vec(rhs.y_axis) }
    }

    /// Every entry multiplied by `s`.
    pub open spec fn scale(self, s: int) -> Matrix {
        Matrix { x_axis: self.x_axis.scale(s), y_axis: self.y_axis.scale(s) }
    }

    /// Every entry divided by `s`.
    pub open spec fn div_scalar(self, s: int) -> Matrix {
        Matrix {
            x_axis: Vector { x: self.x_axis.x / s, y: self.x_axis.y / s },
            y_axis: Vector { x: self.y_axis.x / s, y: self.y_axis.y / s },
        }
    }
}

/// `|a - b|`.
pub open spec fn abs_diff(a: int, b: int) -> int {
    if a >= b {
        a - b
    } else {
        b - a
    }
}

/// A 2x2 column-major matrix with `i64` entries.
#[derive(Clone, Copy, PartialEq, Eq, Structural, PartialOrd, Debug)]
pub struct Mat2 {
    pub x_axis: Vec2,
    pub y_axis: Vec2,
}

impl View for Mat2 {
    type V = Matrix;

    open spec fn view(&self) -> Matrix {
        Matrix { x_axis: self.x_axis@, y_axis: self.y_axis@ }
    }
}

/// Builds a matrix from its two columns.
pub fn mat2(x_axis: Vec2, y_axis: Vec2) -> (r: Mat2)
    ensures
        r.x_axis == x_axis,
        r.y_axis == y_axis,
{
    Mat2::from_cols(x_axis, y_axis)
}

impl Default for Mat2 {
    /// The identity matrix.
    fn default() -> (r: Mat2)
        ensures
            r@ == Matrix::identity(),
    {
        Mat2::identity()
    }
}

/// Whether `|a - b| <= tol`.
fn within_i64(a: i64, b: i64, tol: i64) -> (r: bool)
    ensures
        r == (abs_diff(a as int, b as int) <= tol as int),
{
    let d = (a as i128) - (b as i128);
    if d >= 0 {
        d <= tol as i128
    } else {
        -d <= tol as i128
    }
}

impl Mat2 {
    /// The four entries in column-major order.
    pub open spec fn lanes(self) -> Seq<i64> {
        seq![self.x_axis.x, self.x_axis.y, self.y_axis.x, self.y_axis.y]
    }

    /// The matrix whose column-major entries are `s[0..4]`.
    pub open spec fn from_lanes(s: Seq<i64>) -> Mat2
        recommends
            s.len() == 4,
    {
        Mat2 { x_axis: Vec2 { x: s[0], y: s[1] }, y_axis: Vec2 { x: s[2], y: s[3] } }
    }

    /// The matrix whose columns are `c[0]` and `c[1]`.
    pub open spec fn from_columns(c: Seq<[i64; 2]>) -> Mat2
        recommends
            c.len() == 2,
    {
        Mat2 {
            x_axis: Vec2 { x: c[0]@[0], y: c[0]@[1] },
            y_axis: Vec2 { x: c[1]@[0], y: c[1]@[1] },
        }
    }

    /// Creates a matrix from its two columns.
    pub fn from_cols(x_axis: Vec2, y_axis: Vec2) -> (r: Mat2)
        ensures
            r.x_axis == x_axis,
            r.y_axis == y_axis,
    {
        Mat2 { x_axis, y_axis }
    }

    /// Same as `from_cols`.
    pub fn new(x_axis: Vec2, y_axis: Vec2) -> (r: Mat2)
        ensures
            r.x_axis == x_axis,
            r.y_axis == y_axis,
    {
        Mat2::from_cols(x_axis, y_axis)
    }

    /// All four entries 0.
    pub fn zero() -> (r: Mat2)
        ensures
            r@ == Matrix::zero(),
    {
        Mat2 { x_axis: Vec2 { x: 0, y: 0 }, y_axis: Vec2 { x: 0, y: 0 } }
    }

    /// Columns `(1, 0)` and `(0, 1)`.
    pub fn identity() -> (r: Mat2)
        ensures
            r@ == Matrix::identity(),
    {
        Mat2 { x_axis: Vec2 { x: 1, y: 0 }, y_axis: Vec2 { x: 0, y: 1 } }
    }

    /// Reads four entries stored in column-major order.
    pub fn from_cols_array(m: &[i64; 4]) -> (r: Mat2)
        ensures
            r == Mat2::from_lanes(m@),
    {
        Mat2 { x_axis: Vec2 { x: m[0], y: m[1] }, y_axis: Vec2 { x: m[2], y: m[3] } }
    }

    /// The four entries in column-major order.
    pub fn to_cols_array(&self) -> (r: [i64; 4])
        ensures
            r@ == self.lanes(),
    {
        let r = [self.x_axis.x, self.x_axis.y, self.y_axis.x, self.y_axis.y];
        assert(r@ =~= self.lanes());
        r
    }

    /// Reads two columns: `m[0]` is `x_axis`, `m[1]` is `y_axis`.
    pub fn from_cols_array_2d(m: &[[i64; 2]; 2]) -> (r: Mat2)
        ensures
            r == Mat2::from_columns(m@),
    {
        Mat2 {
            x_axis: Vec2 { x: m[0][0], y: m[0][1] },
            y_axis: Vec2 { x: m[1][0], y: m[1][1] },
        }
    }

    /// The two columns: `x_axis` first, then `y_axis`.
    pub fn to_cols_array_2d(&self) -> (r: [[i64; 2]; 2])
        ensures
            r@[0]@ == seq![self.x_axis.x, self.x_axis.y],
            r@[1]@ == seq![self.y_axis.x, self.y_axis.y],
    {
        let x: [i64; 2] = [self.x_axis.x, self.x_axis.y];
        let y: [i64; 2] = [self.y_axis.x, self.y_axis.y];
        let r = [x, y];
        assert(r@[0]@ =~= seq![self.x_axis.x, self.x_axis.y]);
        assert(r@[1]@ =~= seq![self.y_axis.x, self.y_axis.y]);
        r
    }

    /// The diagonal matrix `diag(scale.x, scale.y)`.
    pub fn from_scale(scale: Vec2) -> (r: Mat2)
        ensures
            r@ == Matrix::diagonal(scale@),
    {
        Mat2 { x_axis: Vec2 { x: scale.x, y: 0 }, y_axis: Vec2 { x: 0, y: scale.y } }
    }

    /// Replaces the first column, leaving the second as it was.
    pub fn set_x_axis(&mut self, x: Vec2)
        ensures
            final(self).x_axis == x,
            final(self).y_axis == old(self).y_axis,
    {
        self.x_axis = x;
    }

    /// Replaces the second column, leaving the first as it was.
    pub fn set_y_axis(&mut self, y: Vec2)
        ensures
            final(self).x_axis == old(self).x_axis,
            final(self).y_axis == y,
    {
        self.y_axis = y;
    }

    /// The first column.
    pub fn x_axis(&self) -> (r: Vec2)
        ensures
            r == self.x_axis,
    {
        self.x_axis
    }

    /// The second column.
    pub fn y_axis(&self) -> (r: Vec2)
        ensures
            r == self.y_axis,
    {
        self.y_axis
    }

    /// Swaps the two off-diagonal entries.
    pub fn transpose(&self) -> (r: Mat2)
        ensures
            r@ == self@.transpose(),
    {
        Mat2 {
            x_axis: Vec2 { x: self.x_axis.x, y: self.y_axis.x },
            y_axis: Vec2 { x: self.x_axis.y, y: self.y_axis.y },
        }
    }

    /// `x_axis.x * y_axis.y - x_axis.y * y_axis.x`, exact: it always fits in `i128`.
    pub fn determinant(&self) -> (r: i128)
        ensures
            r == self@.det(),
    {
        proof {
            lemma_mul_i64_bounds(self.x_axis.x, self.y_axis.y);
            lemma_mul_i64_bounds(self.x_axis.y, self.y_axis.x);
        }
        (self.x_axis.x as i128) * (self.y_axis.y as i128) - (self.x_axis.y as i128) * (
        self.y_axis.x as i128)
    }

    /// Matrix-vector product `x_axis * rhs.x + y_axis * rhs.y`.
    pub fn mul_vec2(&self, rhs: Vec2) -> (r: Vec2)
        requires
            self@.mul_vec(rhs@).fits(),
        ensures
            r@ == self@.mul_vec(rhs@),
    {
        proof {
            lemma_mul_i64_bounds(self.x_axis.x, rhs.x);
            lemma_mul_i64_bounds(self.y_axis.x, rhs.y);
            lemma_mul_i64_bounds(self.x_axis.y, rhs.x);
            lemma_mul_i64_bounds(self.y_axis.y, rhs.y);
        }
        let x = (self.x_axis.x as i128) * (rhs.x as i128) + (self.y_axis.x as i128) * (
        rhs.y as i128);
        let y = (self.x_axis.y as i128) * (rhs.x as i128) + (self.y_axis.y as i128) * (
        rhs.y as i128);
        Vec2 { x: x as i64, y: y as i64 }
    }

    /// Matrix product: column `i` of the result is `self` applied to column `i` of `rhs`.
    pub fn mul_mat2(&self, rhs: &Mat2) -> (r: Mat2)
        requires
            self@.mul_mat(rhs@).fits(),
        ensures
            r@ == self@.mul_mat(rhs@),
    {
        Mat2::from_cols(self.mul_vec2(rhs.x_axis), self.mul_vec2(rhs.y_axis))
    }

    /// Entrywise sum.
    pub fn add_mat2(&self, rhs: &Mat2) -> (r: Mat2)
        requires
            self@.add_mat(rhs@).fits(),
        ensures
            r@ == self@.add_mat(rhs@),
    {
        Mat2 {
            x_axis: Vec2 { x: self.x_axis.x + rhs.x_axis.x, y: self.x_axis.y + rhs.x_axis.y },
            y_axis: Vec2 { x: self.y_axis.x + rhs.y_axis.x, y: self.y_axis.y + rhs.y_axis.y },
        }
    }

    /// Entrywise difference.
    pub fn sub_mat2(&self, rhs: &Mat2) -> (r: Mat2)
        requires
            self@.sub_mat(rhs@).fits(),
        ensures
            r@ == self@.sub_mat(rhs@),
    {
        Mat2 {
            x_axis: Vec2 { x: self.x_axis.x - rhs.x_axis.x, y: self.x_axis.y - rhs.x_axis.y },
            y_axis: Vec2 { x: self.y_axis.x - rhs.y_axis.x, y: self.y_axis.y - rhs.y_axis.y },
        }
    }

    /// Every entry multiplied by `rhs`.
    pub fn mul_scalar(&self, rhs: i64) -> (r: Mat2)
        requires
            self@.scale(rhs as int).fits(),
        ensures
            r@ == self@.scale(rhs as int),
    {
        proof {
            lemma_mul_i64_bounds(self.x_axis.x, rhs);
            lemma_mul_i64_bounds(self.x_axis.y, rhs);
            lemma_mul_i64_bounds(self.y_axis.x, rhs);
            lemma_mul_i64_bounds(self.y_axis.y, rhs);
        }
        Mat2 {
            x_axis: Vec2 {
                x: ((self.x_axis.x as i128) * (rhs as i128)) as i64,
                y: ((self.x_axis.y as i128) * (rhs as i128)) as i64,
            },
            y_axis: Vec2 {
                x: ((self.y_axis.x as i128) * (rhs as i128)) as i64,
                y: ((self.y_axis.y as i128) * (rhs as i128)) as i64,
            },
        }
    }

    /// Whether every pair of corresponding entries differs by at most `max_abs_diff`.
    pub fn abs_diff_eq(&self, rhs: Mat2, max_abs_diff: i64) -> (r: bool)
        ensures
            r == self@.within(rhs@, max_abs_diff as int),
    {
        within_i64(self.x_axis.x, rhs.x_axis.x, max_abs_diff) && within_i64(
            self.x_axis.y,
            rhs.x_axis.y,
            max_abs_diff,
        ) && within_i64(self.y_axis.x, rhs.y_axis.x, max_abs_diff) && within_i64(
            self.y_axis.y,
            rhs.y_axis.y,
            max_abs_diff,
        )
    }

    /// The inverse, where it has integer entries that fit in `i64`.
    ///
    /// An integer matrix has an integer inverse exactly when its determinant
    /// is 1 or -1; that inverse is the adjugate divided by the determinant.
    /// Every other matrix, a singular one among them, gives `None`.
    pub fn inverse(&self) -> (r: Option<Mat2>)
        ensures
            r is Some <==> self@.is_unimodular() && self@.adjugate().div_scalar(
                self@.det(),
            ).fits(),
            r matches Some(inv) ==> {
                &&& inv@ == self@.adjugate().div_scalar(self@.det())
                &&& self@.mul_mat(inv@) == Matrix::identity()
                &&& inv@.mul_mat(self@) == Matrix::identity()
            },
    {
        let a = self.x_axis.x;
        let b = self.x_axis.y;
        let c = self.y_axis.x;
        let d = self.y_axis.y;
        let det = self.determinant();
        if det == 1 {
            if b == i64::MIN || c == i64::MIN {
                None
            } else {
                let inv = Mat2 { x_axis: Vec2 { x: d, y: -b }, y_axis: Vec2 { x: -c, y: a } };
                proof {
                    lemma_div_unit(self@.adjugate(), 1);
                    lemma_unimodular_inverse(self@);
                }
                Some(inv)
            }
        } else if det == -1 {
            if a == i64::MIN || d == i64::MIN {
                None
            } else {
                let inv = Mat2 { x_axis: Vec2 { x: -d, y: b }, y_axis: Vec2 { x: c, y: -a } };
                proof {
                    lemma_div_unit(self@.adjugate(), -1);
                    lemma_unimodular_inverse(self@);
                }
                Some(inv)
            }
        } else {
            None
        }
    }
}

} // verus!
