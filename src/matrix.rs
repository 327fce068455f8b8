//! The contract shared by the matrix types of every dimension, and the
//! operations particular to 3x3 and 4x4 matrices.
use vstd::prelude::*;

use crate::mat4::Mat4;
use crate::model::{
    add_mat, approx_eq_mat, diag_mat, diagonal, fits_mat, fits_vec, homogeneous, identity_mat,
    mat_mul, mat_vec, row, scale_mat, sub_mat, symmetric, transpose, add_vec,
};
use crate::vector::Vec3;

verus! {

/// A square matrix of `i32` entries stored column-major, with columns of
/// vector type `V`. Every operation returns a new value.
pub trait Matrix<V: View<V = Seq<int>>>: Sized {
    /// The columns of the matrix, each as a sequence of its entries.
    spec fn model(&self) -> Seq<Seq<int>>;

    /// Number of rows.
    fn rows(&self) -> (r: usize)
        ensures
            r as int == self.model().len(),
    ;

    /// Number of columns.
    fn cols(&self) -> (r: usize)
        ensures
            r as int == self.model().len(),
    ;

    /// Storage order: always column-major.
    fn is_col_major(&self) -> (r: bool)
        ensures
            r,
    ;

    /// Column `i`.
    fn col(&self, i: usize) -> (r: V)
        requires
            (i as int) < self.model().len(),
        ensures
            r@ == self.model()[i as int],
    ;

    /// Row `i`: entry `i` of every column.
    fn row(&self, i: usize) -> (r: V)
        requires
            (i as int) < self.model().len(),
        ensures
            r@ == row(self.model(), i as int),
    ;

    /// Every entry multiplied by `value`.
    fn mul_t(&self, value: i32) -> (r: Self)
        requires
            fits_mat(scale_mat(self.model(), value as int)),
        ensures
            r.model() == scale_mat(self.model(), value as int),
    ;

    /// Matrix-vector product.
    fn mul_v(&self, other: &V) -> (r: V)
        requires
            fits_vec(mat_vec(self.model(), other@)),
        ensures
            r@ == mat_vec(self.model(), other@),
    ;

    /// Entrywise sum.
    fn add_m(&self, other: &Self) -> (r: Self)
        requires
            fits_mat(add_mat(self.model(), other.model())),
        ensures
            r.model() == add_mat(self.model(), other.model()),
    ;

    /// Entrywise difference.
    fn sub_m(&self, other: &Self) -> (r: Self)
        requires
            fits_mat(sub_mat(self.model(), other.model())),
        ensures
            r.model() == sub_mat(self.model(), other.model()),
    ;

    /// Matrix product `self * other`.
    fn mul_m(&self, other: &Self) -> (r: Self)
        requires
            fits_mat(mat_mul(self.model(), other.model())),
        ensures
            r.model() == mat_mul(self.model(), other.model()),
    ;

    /// The transpose.
    fn transpose(&self) -> (r: Self)
        ensures
            r.model() == transpose(self.model()),
    ;

    /// Whether the matrix is fuzzy-equal to the identity.
    fn is_identity(&self) -> (r: bool)
        ensures
            r == approx_eq_mat(self.model(), identity_mat(self.model().len())),
    ;

    /// Whether every off-diagonal entry is fuzzy-equal to its mirror image.
    fn is_symmetric(&self) -> (r: bool)
        ensures
            r == symmetric(self.model()),
    ;

    /// Whether every off-diagonal entry is fuzzy-equal to zero.
    fn is_diagonal(&self) -> (r: bool)
        ensures
            r == diagonal(self.model()),
    ;

    /// Whether the matrix differs from the identity; not a test that it is
    /// a rotation.
    fn is_rotated(&self) -> (r: bool)
        ensures
            r == !approx_eq_mat(self.model(), identity_mat(self.model().len())),
    ;
}

/// Operations particular to 3x3 matrices.
pub trait Matrix3: Sized {
    /// The columns of the matrix.
    spec fn model3(&self) -> Seq<Seq<int>>;

    /// `self` times the diagonal matrix whose diagonal is `vec`.
    fn scale(&self, vec: &Vec3) -> (r: Self)
        requires
            fits_mat(mat_mul(self.model3(), diag_mat(vec@))),
        ensures
            r.model3() == mat_mul(self.model3(), diag_mat(vec@)),
    ;

    /// The 4x4 matrix with `self` in its upper-left corner and the last row
    /// and column of the identity.
    #[allow(non_snake_case)]
    fn to_Mat4(&self) -> (r: Mat4)
        ensures
            r@ == homogeneous(self.model3()),
    ;
}

/// Operations particular to 4x4 matrices.
pub trait Matrix4: Sized {
    /// The columns of the matrix.
    spec fn model4(&self) -> Seq<Seq<int>>;

    /// `self` times the diagonal matrix with `(vec.x, vec.y, vec.z, 1)` on its
    /// diagonal.
    fn scale(&self, vec: &Vec3) -> (r: Self)
        requires
            fits_mat(mat_mul(self.model4(), diag_mat(vec@.push(1)))),
        ensures
            r.model4() == mat_mul(self.model4(), diag_mat(vec@.push(1))),
    ;

    /// `(vec.x, vec.y, vec.z, 0)` added to the last column.
    fn translate(&self, vec: &Vec3) -> (r: Self)
        requires
            self.model4().len() == 4,
            fits_vec(add_vec(self.model4()[3], vec@.push(0))),
        ensures
            r.model4() == self.model4().update(3, add_vec(self.model4()[3], vec@.push(0))),
    ;
}

} // verus!
