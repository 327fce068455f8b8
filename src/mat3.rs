//! The 3x3 column-major matrix.
use vstd::prelude::*;

use crate::matrix::{Matrix, Matrix3};
use crate::model::{
    add_mat, approx_eq, diag_mat, homogeneous, approx_eq_mat, approx_eq_vec, diagonal, fits, fits_mat, fits_vec,
    fuzzy_eq_scalar, identity_mat, mat_mul, mat_vec, neg_mat, row, scale_mat, sub_mat, symmetric,
    transpose, zero_mat,
};
use crate::mat4::Mat4;
use crate::quat::{half_root, is_quat_of, quat_radicand, scaled_quotient, Quat};
use crate::vector::Vec3;

verus! {

/// A 3x3 matrix stored as 3 columns: field `x` is column 0, and so on.
#[derive(Clone, Copy, Debug)]
pub struct Mat3 {
    pub x: Vec3,
    pub y: Vec3,
    pub z: Vec3,
}

impl View for Mat3 {
    type V = Seq<Seq<int>>;

    open spec fn view(&self) -> Seq<Seq<int>> {
        seq![self.x@, self.y@, self.z@]
    }
}

impl Mat3 {
    /// The matrix with the given entries, column by column.
    pub fn new(
        c0r0: i32,
        c0r1: i32,
        c0r2: i32,
        c1r0: i32,
        c1r1: i32,
        c1r2: i32,
        c2r0: i32,
        c2r1: i32,
        c2r2: i32,
    ) -> (r: Mat3)
        ensures
            r@ == seq![
                seq![c0r0 as int, c0r1 as int, c0r2 as int],
                seq![c1r0 as int, c1r1 as int, c1r2 as int],
                seq![c2r0 as int, c2r1 as int, c2r2 as int],
            ],
    {
        Mat3::from_cols(
            &Vec3::new(c0r0, c0r1, c0r2),
            &Vec3::new(c1r0, c1r1, c1r2),
            &Vec3::new(c2r0, c2r1, c2r2),
        )
    }

    /// The matrix with the given columns.
    pub fn from_cols(c0: &Vec3, c1: &Vec3, c2: &Vec3) -> (r: Mat3)
        ensures
            r@ == seq![c0@, c1@, c2@],
    {
        Mat3 { x: *c0, y: *c1, z: *c2 }
    }

    /// The matrix whose entries are all zero.
    pub fn zero() -> (r: Mat3)
        ensures
            r@ == zero_mat(3),
    {
        let r = Mat3 { x: Vec3::zero(), y: Vec3::zero(), z: Vec3::zero() };
        assert(r@ =~~= zero_mat(3));
        r
    }

    /// The identity matrix.
    pub fn identity() -> (r: Mat3)
        ensures
            r@ == identity_mat(3),
    {
        let r = Mat3 { x: Vec3::unit_x(), y: Vec3::unit_y(), z: Vec3::unit_z() };
        assert(r@ =~~= identity_mat(3));
        r
    }

    /// Column `i`.
    pub fn index(&self, i: usize) -> (r: Vec3)
        requires
            i < 3,
        ensures
            r@ == self@[i as int],
    {
        if i == 0 {
            self.x
        } else if i == 1 {
            self.y
        } else {
            self.z
        }
    }

    /// Entrywise negation.
    pub fn neg(&self) -> (r: Mat3)
        requires
            fits_mat(neg_mat(self@)),
        ensures
            r@ == neg_mat(self@),
    {
        assert(fits_vec(neg_mat(self@)[0]));
        assert(fits_vec(neg_mat(self@)[1]));
        assert(fits_vec(neg_mat(self@)[2]));
        let r = Mat3::from_cols(&self.x.neg(), &self.y.neg(), &self.z.neg());
        assert(r@ =~= neg_mat(self@));
        r
    }

    /// Exact entrywise equality.
    pub fn exact_eq(&self, other: &Mat3) -> (r: bool)
        ensures
            r == (self@ == other@),
    {
        let r = self.x.exact_eq(&other.x) && self.y.exact_eq(&other.y) && self.z.exact_eq(&other.z);
        assert(r ==> self@ =~= other@);
        assert(self@ == other@ ==> self@[0] == other@[0] && self@[1] == other@[1] && self@[2] == other@[2]);
        r
    }

    /// Entrywise equality up to the scalar tolerance.
    pub fn fuzzy_eq(&self, other: &Mat3) -> (r: bool)
        ensures
            r == approx_eq_mat(self@, other@),
    {
        let r = self.x.fuzzy_eq(&other.x) && self.y.fuzzy_eq(&other.y) && self.z.fuzzy_eq(&other.z);
        assert(approx_eq_mat(self@, other@) ==> approx_eq_vec(self@[0], other@[0]) && approx_eq_vec(self@[1], other@[1]) && approx_eq_vec(self@[2], other@[2]));
        r
    }
}

/// `==` on matrices is fuzzy equality.
impl PartialEq for Mat3 {
    fn eq(&self, other: &Mat3) -> (r: bool) {
        self.fuzzy_eq(other)
    }
}

impl vstd::std_specs::cmp::PartialEqSpecImpl for Mat3 {
    open spec fn obeys_eq_spec() -> bool {
        true
    }

    open spec fn eq_spec(&self, other: &Mat3) -> bool {
        approx_eq_mat(self@, other@)
    }
}

impl Mat3 {
    /// The quaternion of the rotation that `self` is taken to be.
    ///
    /// The branch goes by the trace and then by the largest diagonal entry;
    /// the radicand is never below one, so no square root of a negative value
    /// and no division by zero is taken. The input is not checked to be a
    /// rotation.
    #[allow(non_snake_case)]
    pub fn to_Quat(&self) -> (r: Quat)
        ensures
            is_quat_of(self@, r@),
            quat_radicand(self@) >= 1,
    {
        let m00 = self.x.x as i64;
        let m01 = self.x.y as i64;
        let m02 = self.x.z as i64;
        let m10 = self.y.x as i64;
        let m11 = self.y.y as i64;
        let m12 = self.y.z as i64;
        let m20 = self.z.x as i64;
        let m21 = self.z.y as i64;
        let m22 = self.z.z as i64;
        let trace: i64 = m00 + m11 + m22;
        let a: i64 = m12 - m21;
        let p: i64 = m20 - m02;
        let c: i64 = m01 - m10;
        if trace >= 0 {
            let rad: i64 = trace + 1;
            Quat::new(
                half_root(rad as u64),
                scaled_quotient(a, rad),
                scaled_quotient(p, rad),
                scaled_quotient(c, rad),
            )
        } else if m00 > m11 && m00 > m22 {
            let rad: i64 = 1 + m00 - m11 - m22;
            Quat::new(
                scaled_quotient(c, rad),
                half_root(rad as u64),
                scaled_quotient(p, rad),
                scaled_quotient(a, rad),
            )
        } else if m11 > m22 {
            let rad: i64 = 1 + m11 - m00 - m22;
            Quat::new(
                scaled_quotient(c, rad),
                scaled_quotient(a, rad),
                half_root(rad as u64),
                scaled_quotient(p, rad),
            )
        } else {
            let rad: i64 = 1 + m22 - m00 - m11;
            Quat::new(
                scaled_quotient(p, rad),
                scaled_quotient(a, rad),
                scaled_quotient(c, rad),
                half_root(rad as u64),
            )
        }
    }
}

impl Matrix<Vec3> for Mat3 {
    open spec fn model(&self) -> Seq<Seq<int>> {
        self@
    }

    fn rows(&self) -> (r: usize)
    {
        3
    }

    fn cols(&self) -> (r: usize)
    {
        3
    }

    fn is_col_major(&self) -> (r: bool)
    {
        true
    }

    fn col(&self, i: usize) -> (r: Vec3)
    {
        self.index(i)
    }

    fn row(&self, i: usize) -> (r: Vec3)
    {
        let r = Vec3::new(self.x.index(i), self.y.index(i), self.z.index(i));
        assert(r@ =~= row(self@, i as int));
        r
    }

    fn mul_t(&self, value: i32) -> (r: Mat3)
    {
        assert(fits_vec(scale_mat(self@, value as int)[0]));
        assert(fits_vec(scale_mat(self@, value as int)[1]));
        assert(fits_vec(scale_mat(self@, value as int)[2]));
        let r = Mat3::from_cols(&self.x.mul_t(value), &self.y.mul_t(value), &self.z.mul_t(value));
        assert(r@ =~= scale_mat(self@, value as int));
        r
    }

    fn mul_v(&self, other: &Vec3) -> (r: Vec3)
    {
        assert(fits(mat_vec(self@, other@)[0]));
        assert(fits(mat_vec(self@, other@)[1]));
        assert(fits(mat_vec(self@, other@)[2]));
        let r = Vec3::new(self.row(0).dot(other), self.row(1).dot(other), self.row(2).dot(other));
        assert(r@ =~= mat_vec(self@, other@));
        r
    }

    fn add_m(&self, other: &Mat3) -> (r: Mat3)
    {
        assert(fits_vec(add_mat(self@, other@)[0]));
        assert(fits_vec(add_mat(self@, other@)[1]));
        assert(fits_vec(add_mat(self@, other@)[2]));
        let r = Mat3::from_cols(&self.x.add_v(&other.x), &self.y.add_v(&other.y), &self.z.add_v(&other.z));
        assert(r@ =~= add_mat(self@, other@));
        r
    }

    fn sub_m(&self, other: &Mat3) -> (r: Mat3)
    {
        assert(fits_vec(sub_mat(self@, other@)[0]));
        assert(fits_vec(sub_mat(self@, other@)[1]));
        assert(fits_vec(sub_mat(self@, other@)[2]));
        let r = Mat3::from_cols(&self.x.sub_v(&other.x), &self.y.sub_v(&other.y), &self.z.sub_v(&other.z));
        assert(r@ =~= sub_mat(self@, other@));
        r
    }

    fn mul_m(&self, other: &Mat3) -> (r: Mat3)
    {
        assert(fits_vec(mat_mul(self@, other@)[0]));
        assert(fits_vec(mat_mul(self@, other@)[1]));
        assert(fits_vec(mat_mul(self@, other@)[2]));
        let r = Mat3::from_cols(&self.mul_v(&other.x), &self.mul_v(&other.y), &self.mul_v(&other.z));
        assert(r@ =~= mat_mul(self@, other@));
        r
    }

    fn transpose(&self) -> (r: Mat3)
    {
        let r = Mat3::from_cols(&self.row(0), &self.row(1), &self.row(2));
        assert(r@ =~= transpose(self@));
        r
    }

    fn is_identity(&self) -> (r: bool)
    {
        self.fuzzy_eq(&Mat3::identity())
    }

    fn is_symmetric(&self) -> (r: bool)
    {
        let r = fuzzy_eq_scalar(self.x.y, self.y.x) &&
            fuzzy_eq_scalar(self.x.z, self.z.x) &&
            fuzzy_eq_scalar(self.y.x, self.x.y) &&
            fuzzy_eq_scalar(self.y.z, self.z.y) &&
            fuzzy_eq_scalar(self.z.x, self.x.z) &&
            fuzzy_eq_scalar(self.z.y, self.y.z);
        assert(symmetric(self@) ==> approx_eq(self@[0][1], self@[1][0]) && approx_eq(self@[0][2], self@[2][0]) && approx_eq(self@[1][0], self@[0][1]) && approx_eq(self@[1][2], self@[2][1]) && approx_eq(self@[2][0], self@[0][2]) && approx_eq(self@[2][1], self@[1][2]));
        r
    }

    fn is_diagonal(&self) -> (r: bool)
    {
        let r = fuzzy_eq_scalar(self.x.y, 0) &&
            fuzzy_eq_scalar(self.x.z, 0) &&
            fuzzy_eq_scalar(self.y.x, 0) &&
            fuzzy_eq_scalar(self.y.z, 0) &&
            fuzzy_eq_scalar(self.z.x, 0) &&
            fuzzy_eq_scalar(self.z.y, 0);
        assert(diagonal(self@) ==> approx_eq(self@[0][1], 0) && approx_eq(self@[0][2], 0) && approx_eq(self@[1][0], 0) && approx_eq(self@[1][2], 0) && approx_eq(self@[2][0], 0) && approx_eq(self@[2][1], 0));
        r
    }

    fn is_rotated(&self) -> (r: bool)
    {
        !self.fuzzy_eq(&Mat3::identity())
    }
}

impl Matrix3 for Mat3 {
    open spec fn model3(&self) -> Seq<Seq<int>> {
        self@
    }

    fn scale(&self, vec: &Vec3) -> (r: Mat3)
    {
        let d = Mat3::new(vec.x, 0, 0, 0, vec.y, 0, 0, 0, vec.z);
        assert(d@ =~~= diag_mat(vec@));
        self.mul_m(&d)
    }

    fn to_Mat4(&self) -> (r: Mat4)
    {
        let r = Mat4::new(
            self.x.x, self.x.y, self.x.z, 0,
            self.y.x, self.y.y, self.y.z, 0,
            self.z.x, self.z.y, self.z.z, 0,
            0, 0, 0, 1,
        );
        assert(r@ =~~= homogeneous(self@));
        r
    }
}

} // verus!
