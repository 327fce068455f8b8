//! The 2x2 column-major matrix.
use vstd::prelude::*;

use crate::matrix::Matrix;
use crate::model::{
    add_mat, approx_eq, approx_eq_mat, approx_eq_vec, diagonal, fits, fits_mat, fits_vec,
    fuzzy_eq_scalar, identity_mat, mat_mul, mat_vec, neg_mat, row, scale_mat, sub_mat, symmetric,
    transpose, zero_mat,
};
use crate::vector::Vec2;

verus! {

/// A 2x2 matrix stored as 2 columns: field `x` is column 0, and so on.
#[derive(Clone, Copy, Debug)]
pub struct Mat2 {
    pub x: Vec2,
    pub y: Vec2,
}

impl View for Mat2 {
    type V = Seq<Seq<int>>;

    open spec fn view(&self) -> Seq<Seq<int>> {
        seq![self.x@, self.y@]
    }
}

impl Mat2 {
    /// The matrix with the given entries, column by column.
    pub fn new(
        c0r0: i32,
        c0r1: i32,
        c1r0: i32,
        c1r1: i32,
    ) -> (r: Mat2)
        ensures
            r@ == seq![
                seq![c0r0 as int, c0r1 as int],
                seq![c1r0 as int, c1r1 as int],
            ],
    {
        Mat2::from_cols(
            &Vec2::new(c0r0, c0r1),
            &Vec2::new(c1r0, c1r1),
        )
    }

    /// The matrix with the given columns.
    pub fn from_cols(c0: &Vec2, c1: &Vec2) -> (r: Mat2)
        ensures
            r@ == seq![c0@, c1@],
    {
        Mat2 { x: *c0, y: *c1 }
    }

    /// The matrix whose entries are all zero.
    pub fn zero() -> (r: Mat2)
        ensures
            r@ == zero_mat(2),
    {
        let r = Mat2 { x: Vec2::zero(), y: Vec2::zero() };
        assert(r@ =~~= zero_mat(2));
        r
    }

    /// The identity matrix.
    pub fn identity() -> (r: Mat2)
        ensures
            r@ == identity_mat(2),
    {
        let r = Mat2 { x: Vec2::unit_x(), y: Vec2::unit_y() };
        assert(r@ =~~= identity_mat(2));
        r
    }

    /// Column `i`.
    pub fn index(&self, i: usize) -> (r: Vec2)
        requires
            i < 2,
        ensures
            r@ == self@[i as int],
    {
        if i == 0 {
            self.x
        } else {
            self.y
        }
    }

    /// Entrywise negation.
    pub fn neg(&self) -> (r: Mat2)
        requires
            fits_mat(neg_mat(self@)),
        ensures
            r@ == neg_mat(self@),
    {
        assert(fits_vec(neg_mat(self@)[0]));
        assert(fits_vec(neg_mat(self@)[1]));
        let r = Mat2::from_cols(&self.x.neg(), &self.y.neg());
        assert(r@ =~= neg_mat(self@));
        r
    }

    /// Exact entrywise equality.
    pub fn exact_eq(&self, other: &Mat2) -> (r: bool)
        ensures
            r == (self@ == other@),
    {
        let r = self.x.exact_eq(&other.x) && self.y.exact_eq(&other.y);
        assert(r ==> self@ =~= other@);
        assert(self@ == other@ ==> self@[0] == other@[0] && self@[1] == other@[1]);
        r
    }

    /// Entrywise equality up to the scalar tolerance.
    pub fn fuzzy_eq(&self, other: &Mat2) -> (r: bool)
        ensures
            r == approx_eq_mat(self@, other@),
    {
        let r = self.x.fuzzy_eq(&other.x) && self.y.fuzzy_eq(&other.y);
        assert(approx_eq_mat(self@, other@) ==> approx_eq_vec(self@[0], other@[0]) && approx_eq_vec(self@[1], other@[1]));
        r
    }
}

/// `==` on matrices is fuzzy equality.
impl PartialEq for Mat2 {
    fn eq(&self, other: &Mat2) -> (r: bool) {
        self.fuzzy_eq(other)
    }
}

impl vstd::std_specs::cmp::PartialEqSpecImpl for Mat2 {
    open spec fn obeys_eq_spec() -> bool {
        true
    }

    open spec fn eq_spec(&self, other: &Mat2) -> bool {
        approx_eq_mat(self@, other@)
    }
}

impl Matrix<Vec2> for Mat2 {
    open spec fn model(&self) -> Seq<Seq<int>> {
        self@
    }

    fn rows(&self) -> (r: usize)
    {
        2
    }

    fn cols(&self) -> (r: usize)
    {
        2
    }

    fn is_col_major(&self) -> (r: bool)
    {
        true
    }

    fn col(&self, i: usize) -> (r: Vec2)
    {
        self.index(i)
    }

    fn row(&self, i: usize) -> (r: Vec2)
    {
        let r = Vec2::new(self.x.index(i), self.y.index(i));
        assert(r@ =~= row(self@, i as int));
        r
    }

    fn mul_t(&self, value: i32) -> (r: Mat2)
    {
        assert(fits_vec(scale_mat(self@, value as int)[0]));
        assert(fits_vec(scale_mat(self@, value as int)[1]));
        let r = Mat2::from_cols(&self.x.mul_t(value), &self.y.mul_t(value));
        assert(r@ =~= scale_mat(self@, value as int));
        r
    }

    fn mul_v(&self, other: &Vec2) -> (r: Vec2)
    {
        assert(fits(mat_vec(self@, other@)[0]));
        assert(fits(mat_vec(self@, other@)[1]));
        let r = Vec2::new(self.row(0).dot(other), self.row(1).dot(other));
        assert(r@ =~= mat_vec(self@, other@));
        r
    }

    fn add_m(&self, other: &Mat2) -> (r: Mat2)
    {
        assert(fits_vec(add_mat(self@, other@)[0]));
        assert(fits_vec(add_mat(self@, other@)[1]));
        let r = Mat2::from_cols(&self.x.add_v(&other.x), &self.y.add_v(&other.y));
        assert(r@ =~= add_mat(self@, other@));
        r
    }

    fn sub_m(&self, other: &Mat2) -> (r: Mat2)
    {
        assert(fits_vec(sub_mat(self@, other@)[0]));
        assert(fits_vec(sub_mat(self@, other@)[1]));
        let r = Mat2::from_cols(&self.x.sub_v(&other.x), &self.y.sub_v(&other.y));
        assert(r@ =~= sub_mat(self@, other@));
        r
    }

    fn mul_m(&self, other: &Mat2) -> (r: Mat2)
    {
        assert(fits_vec(mat_mul(self@, other@)[0]));
        assert(fits_vec(mat_mul(self@, other@)[1]));
        let r = Mat2::from_cols(&self.mul_v(&other.x), &self.mul_v(&other.y));
        assert(r@ =~= mat_mul(self@, other@));
        r
    }

    fn transpose(&self) -> (r: Mat2)
    {
        let r = Mat2::from_cols(&self.row(0), &self.row(1));
        assert(r@ =~= transpose(self@));
        r
    }

    fn is_identity(&self) -> (r: bool)
    {
        self.fuzzy_eq(&Mat2::identity())
    }

    fn is_symmetric(&self) -> (r: bool)
    {
        let r = fuzzy_eq_scalar(self.x.y, self.y.x) &&
            fuzzy_eq_scalar(self.y.x, self.x.y);
        assert(symmetric(self@) ==> approx_eq(self@[0][1], self@[1][0]) && approx_eq(self@[1][0], self@[0][1]));
        r
    }

    fn is_diagonal(&self) -> (r: bool)
    {
        let r = fuzzy_eq_scalar(self.x.y, 0) &&
            fuzzy_eq_scalar(self.y.x, 0);
        assert(diagonal(self@) ==> approx_eq(self@[0][1], 0) && approx_eq(self@[1][0], 0));
        r
    }

    fn is_rotated(&self) -> (r: bool)
    {
        !self.fuzzy_eq(&Mat2::identity())
    }
}

} // verus!
