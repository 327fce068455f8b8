//! The 4x4 column-major matrix.
use vstd::prelude::*;

use crate::matrix::{Matrix, Matrix4};
use crate::model::{
    add_mat, add_vec, approx_eq, diag_mat, approx_eq_mat, approx_eq_vec, diagonal, fits, fits_mat, fits_vec,
    fuzzy_eq_scalar, identity_mat, mat_mul, mat_vec, neg_mat, row, scale_mat, sub_mat, symmetric,
    transpose, zero_mat,
};
use crate::vector::{Vec3, Vec4};

verus! {

/// A 4x4 matrix stored as 4 columns: field `x` is column 0, and so on.
#[derive(Clone, Copy, Debug)]
pub struct Mat4 {
    pub x: Vec4,
    pub y: Vec4,
    pub z: Vec4,
    pub w: Vec4,
}

impl View for Mat4 {
    type V = Seq<Seq<int>>;

    open spec fn view(&self) -> Seq<Seq<int>> {
        seq![self.x@, self.y@, self.z@, self.w@]
    }
}

impl Mat4 {
    /// The matrix with the given entries, column by column.
    pub fn new(
        c0r0: i32,
        c0r1: i32,
        c0r2: i32,
        c0r3: i32,
        c1r0: i32,
        c1r1: i32,
        c1r2: i32,
        c1r3: i32,
        c2r0: i32,
        c2r1: i32,
        c2r2: i32,
        c2r3: i32,
        c3r0: i32,
        c3r1: i32,
        c3r2: i32,
        c3r3: i32,
    ) -> (r: Mat4)
        ensures
            r@ == seq![
                seq![c0r0 as int, c0r1 as int, c0r2 as int, c0r3 as int],
                seq![c1r0 as int, c1r1 as int, c1r2 as int, c1r3 as int],
                seq![c2r0 as int, c2r1 as int, c2r2 as int, c2r3 as int],
                seq![c3r0 as int, c3r1 as int, c3r2 as int, c3r3 as int],
            ],
    {
        Mat4::from_cols(
            &Vec4::new(c0r0, c0r1, c0r2, c0r3),
            &Vec4::new(c1r0, c1r1, c1r2, c1r3),
            &Vec4::new(c2r0, c2r1, c2r2, c2r3),
            &Vec4::new(c3r0, c3r1, c3r2, c3r3),
        )
    }

    /// The matrix with the given columns.
    pub fn from_cols(c0: &Vec4, c1: &Vec4, c2: &Vec4, c3: &Vec4) -> (r: Mat4)
        ensures
            r@ == seq![c0@, c1@, c2@, c3@],
    {
        Mat4 { x: *c0, y: *c1, z: *c2, w: *c3 }
    }

    /// The matrix whose entries are all zero.
    pub fn zero() -> (r: Mat4)
        ensures
            r@ == zero_mat(4),
    {
        let r = Mat4 { x: Vec4::zero(), y: Vec4::zero(), z: Vec4::zero(), w: Vec4::zero() };
        assert(r@ =~~= zero_mat(4));
        r
    }

    /// The identity matrix.
    pub fn identity() -> (r: Mat4)
        ensures
            r@ == identity_mat(4),
    {
        let r = Mat4 { x: Vec4::unit_x(), y: Vec4::unit_y(), z: Vec4::unit_z(), w: Vec4::unit_w() };
        assert(r@ =~~= identity_mat(4));
        r
    }

    /// Column `i`.
    pub fn index(&self, i: usize) -> (r: Vec4)
        requires
            i < 4,
        ensures
            r@ == self@[i as int],
    {
        if i == 0 {
            self.x
        } else if i == 1 {
            self.y
        } else if i == 2 {
            self.z
        } else {
            self.w
        }
    }

    /// Entrywise negation.
    pub fn neg(&self) -> (r: Mat4)
        requires
            fits_mat(neg_mat(self@)),
        ensures
            r@ == neg_mat(self@),
    {
        assert(fits_vec(neg_mat(self@)[0]));
        assert(fits_vec(neg_mat(self@)[1]));
        assert(fits_vec(neg_mat(self@)[2]));
        assert(fits_vec(neg_mat(self@)[3]));
        let r = Mat4::from_cols(&self.x.neg(), &self.y.neg(), &self.z.neg(), &self.w.neg());
        assert(r@ =~= neg_mat(self@));
        r
    }

    /// Exact entrywise equality.
    pub fn exact_eq(&self, other: &Mat4) -> (r: bool)
        ensures
            r == (self@ == other@),
    {
        let r = self.x.exact_eq(&other.x) && self.y.exact_eq(&other.y) && self.z.exact_eq(&other.z) && self.w.exact_eq(&other.w);
        assert(r ==> self@ =~= other@);
        assert(self@ == other@ ==> self@[0] == other@[0] && self@[1] == other@[1] && self@[2] == other@[2] && self@[3] == other@[3]);
        r
    }

    /// Entrywise equality up to the scalar tolerance.
    pub fn fuzzy_eq(&self, other: &Mat4) -> (r: bool)
        ensures
            r == approx_eq_mat(self@, other@),
    {
        let r = self.x.fuzzy_eq(&other.x) && self.y.fuzzy_eq(&other.y) && self.z.fuzzy_eq(&other.z) && self.w.fuzzy_eq(&other.w);
        assert(approx_eq_mat(self@, other@) ==> approx_eq_vec(self@[0], other@[0]) && approx_eq_vec(self@[1], other@[1]) && approx_eq_vec(self@[2], other@[2]) && approx_eq_vec(self@[3], other@[3]));
        r
    }
}

/// `==` on matrices is fuzzy equality.
impl PartialEq for Mat4 {
    fn eq(&self, other: &Mat4) -> (r: bool) {
        self.fuzzy_eq(other)
    }
}

impl vstd::std_specs::cmp::PartialEqSpecImpl for Mat4 {
    open spec fn obeys_eq_spec() -> bool {
        true
    }

    open spec fn eq_spec(&self, other: &Mat4) -> bool {
        approx_eq_mat(self@, other@)
    }
}

impl Matrix<Vec4> for Mat4 {
    open spec fn model(&self) -> Seq<Seq<int>> {
        self@
    }

    fn rows(&self) -> (r: usize)
    {
        4
    }

    fn cols(&self) -> (r: usize)
    {
        4
    }

    fn is_col_major(&self) -> (r: bool)
    {
        true
    }

    fn col(&self, i: usize) -> (r: Vec4)
    {
        self.index(i)
    }

    fn row(&self, i: usize) -> (r: Vec4)
    {
        let r = Vec4::new(self.x.index(i), self.y.index(i), self.z.index(i), self.w.index(i));
        assert(r@ =~= row(self@, i as int));
        r
    }

    fn mul_t(&self, value: i32) -> (r: Mat4)
    {
        assert(fits_vec(scale_mat(self@, value as int)[0]));
        assert(fits_vec(scale_mat(self@, value as int)[1]));
        assert(fits_vec(scale_mat(self@, value as int)[2]));
        assert(fits_vec(scale_mat(self@, value as int)[3]));
        let r = Mat4::from_cols(&self.x.mul_t(value), &self.y.mul_t(value), &self.z.mul_t(value), &self.w.mul_t(value));
        assert(r@ =~= scale_mat(self@, value as int));
        r
    }

    fn mul_v(&self, other: &Vec4) -> (r: Vec4)
    {
        assert(fits(mat_vec(self@, other@)[0]));
        assert(fits(mat_vec(self@, other@)[1]));
        assert(fits(mat_vec(self@, other@)[2]));
        assert(fits(mat_vec(self@, other@)[3]));
        let r = Vec4::new(self.row(0).dot(other), self.row(1).dot(other), self.row(2).dot(other), self.row(3).dot(other));
        assert(r@ =~= mat_vec(self@, other@));
        r
    }

    fn add_m(&self, other: &Mat4) -> (r: Mat4)
    {
        assert(fits_vec(add_mat(self@, other@)[0]));
        assert(fits_vec(add_mat(self@, other@)[1]));
        assert(fits_vec(add_mat(self@, other@)[2]));
        assert(fits_vec(add_mat(self@, other@)[3]));
        let r = Mat4::from_cols(&self.x.add_v(&other.x), &self.y.add_v(&other.y), &self.z.add_v(&other.z), &self.w.add_v(&other.w));
        assert(r@ =~= add_mat(self@, other@));
        r
    }

    fn sub_m(&self, other: &Mat4) -> (r: Mat4)
    {
        assert(fits_vec(sub_mat(self@, other@)[0]));
        assert(fits_vec(sub_mat(self@, other@)[1]));
        assert(fits_vec(sub_mat(self@, other@)[2]));
        assert(fits_vec(sub_mat(self@, other@)[3]));
        let r = Mat4::from_cols(&self.x.sub_v(&other.x), &self.y.sub_v(&other.y), &self.z.sub_v(&other.z), &self.w.sub_v(&other.w));
        assert(r@ =~= sub_mat(self@, other@));
        r
    }

    fn mul_m(&self, other: &Mat4) -> (r: Mat4)
    {
        assert(fits_vec(mat_mul(self@, other@)[0]));
        assert(fits_vec(mat_mul(self@, other@)[1]));
        assert(fits_vec(mat_mul(self@, other@)[2]));
        assert(fits_vec(mat_mul(self@, other@)[3]));
        let r = Mat4::from_cols(&self.mul_v(&other.x), &self.mul_v(&other.y), &self.mul_v(&other.z), &self.mul_v(&other.w));
        assert(r@ =~= mat_mul(self@, other@));
        r
    }

    fn transpose(&self) -> (r: Mat4)
    {
        let r = Mat4::from_cols(&self.row(0), &self.row(1), &self.row(2), &self.row(3));
        assert(r@ =~= transpose(self@));
        r
    }

    fn is_identity(&self) -> (r: bool)
    {
        self.fuzzy_eq(&Mat4::identity())
    }

    fn is_symmetric(&self) -> (r: bool)
    {
        let r = fuzzy_eq_scalar(self.x.y, self.y.x) &&
            fuzzy_eq_scalar(self.x.z, self.z.x) &&
            fuzzy_eq_scalar(self.x.w, self.w.x) &&
            fuzzy_eq_scalar(self.y.x, self.x.y) &&
            fuzzy_eq_scalar(self.y.z, self.z.y) &&
            fuzzy_eq_scalar(self.y.w, self.w.y) &&
            fuzzy_eq_scalar(self.z.x, self.x.z) &&
            fuzzy_eq_scalar(self.z.y, self.y.z) &&
            fuzzy_eq_scalar(self.z.w, self.w.z) &&
            fuzzy_eq_scalar(self.w.x, self.x.w) &&
            fuzzy_eq_scalar(self.w.y, self.y.w) &&
            fuzzy_eq_scalar(self.w.z, self.z.w);
        assert(symmetric(self@) ==> approx_eq(self@[0][1], self@[1][0]) && approx_eq(self@[0][2], self@[2][0]) && approx_eq(self@[0][3], self@[3][0]) && approx_eq(self@[1][0], self@[0][1]) && approx_eq(self@[1][2], self@[2][1]) && approx_eq(self@[1][3], self@[3][1]) && approx_eq(self@[2][0], self@[0][2]) && approx_eq(self@[2][1], self@[1][2]) && approx_eq(self@[2][3], self@[3][2]) && approx_eq(self@[3][0], self@[0][3]) && approx_eq(self@[3][1], self@[1][3]) && approx_eq(self@[3][2], self@[2][3]));
        r
    }

    fn is_diagonal(&self) -> (r: bool)
    {
        let r = fuzzy_eq_scalar(self.x.y, 0) &&
            fuzzy_eq_scalar(self.x.z, 0) &&
            fuzzy_eq_scalar(self.x.w, 0) &&
            fuzzy_eq_scalar(self.y.x, 0) &&
            fuzzy_eq_scalar(self.y.z, 0) &&
            fuzzy_eq_scalar(self.y.w, 0) &&
            fuzzy_eq_scalar(self.z.x, 0) &&
            fuzzy_eq_scalar(self.z.y, 0) &&
            fuzzy_eq_scalar(self.z.w, 0) &&
            fuzzy_eq_scalar(self.w.x, 0) &&
            fuzzy_eq_scalar(self.w.y, 0) &&
            fuzzy_eq_scalar(self.w.z, 0);
        assert(diagonal(self@) ==> approx_eq(self@[0][1], 0) && approx_eq(self@[0][2], 0) && approx_eq(self@[0][3], 0) && approx_eq(self@[1][0], 0) && approx_eq(self@[1][2], 0) && approx_eq(self@[1][3], 0) && approx_eq(self@[2][0], 0) && approx_eq(self@[2][1], 0) && approx_eq(self@[2][3], 0) && approx_eq(self@[3][0], 0) && approx_eq(self@[3][1], 0) && approx_eq(self@[3][2], 0));
        r
    }

    fn is_rotated(&self) -> (r: bool)
    {
        !self.fuzzy_eq(&Mat4::identity())
    }
}

impl Matrix4 for Mat4 {
    open spec fn model4(&self) -> Seq<Seq<int>> {
        self@
    }

    fn scale(&self, vec: &Vec3) -> (r: Mat4)
    {
        let d = Mat4::new(vec.x, 0, 0, 0, 0, vec.y, 0, 0, 0, 0, vec.z, 0, 0, 0, 0, 1);
        assert(d@ =~~= diag_mat(vec@.push(1)));
        self.mul_m(&d)
    }

    fn translate(&self, vec: &Vec3) -> (r: Mat4)
    {
        let t = Vec4::new(vec.x, vec.y, vec.z, 0);
        assert(t@ =~= vec@.push(0));
        let r = Mat4::from_cols(&self.x, &self.y, &self.z, &self.w.add_v(&t));
        assert(r@ =~= self@.update(3, add_vec(self@[3], vec@.push(0))));
        r
    }
}

} // verus!
